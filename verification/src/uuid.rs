//! 128-bit attribute identifiers and their short-form canonicalization.
//!
//! A [`Uuid`] is the identifier of a service, characteristic or descriptor.
//! Short 16-bit and 32-bit identifiers are expanded into the Bluetooth base
//! identifier `0000xxxx-0000-1000-8000-00805f9b34fb`.

use vstd::prelude::*;
use vstd::arithmetic::power::pow;
use vstd::string::StringSliceAdditionalSpecFns;

verus! {

/// The Bluetooth base identifier with zeroed short part.
pub const BLUETOOTH_BASE_UUID: u128 = 0x00000000_0000_1000_8000_00805F9B34FB;

/// A 128-bit attribute identifier.
#[derive(Debug, Clone, Copy, PartialEq, Eq, Structural, Hash)]
pub struct Uuid {
    bits: u128,
}

impl Uuid {
    pub closed spec fn spec_as_u128(&self) -> u128 {
        self.bits
    }

    pub fn from_u128(bits: u128) -> (r: Uuid)
        ensures
            r.spec_as_u128() == bits,
    {
        Uuid { bits }
    }

    pub fn as_u128(&self) -> (r: u128)
        ensures
            r == self.spec_as_u128(),
    {
        self.bits
    }

    /// The all-zero identifier.
    pub fn nil() -> (r: Uuid)
        ensures
            r.spec_as_u128() == 0,
    {
        Uuid { bits: 0 }
    }
}

impl Uuid {
    /// The four fields of the identifier, as native GUID structures
    /// split them: the top 32 bits, two 16-bit groups, and the low 64
    /// bits as big-endian bytes.
    pub fn as_fields(&self) -> (r: (u32, u16, u16, [u8; 8]))
        ensures
            r.0 == ((self.spec_as_u128() >> 96) & 0xFFFF_FFFF) as u32,
            r.1 == ((self.spec_as_u128() >> 80) & 0xFFFF) as u16,
            r.2 == ((self.spec_as_u128() >> 64) & 0xFFFF) as u16,
            forall|i: int|
                0 <= i < 8 ==> r.3@[i] == ((self.spec_as_u128() >> ((56 - 8 * i) as u128))
                    & 0xFF) as u8,
    {
        let b = self.bits;
        let d4: [u8; 8] = [
            ((b >> 56) & 0xFF) as u8,
            ((b >> 48) & 0xFF) as u8,
            ((b >> 40) & 0xFF) as u8,
            ((b >> 32) & 0xFF) as u8,
            ((b >> 24) & 0xFF) as u8,
            ((b >> 16) & 0xFF) as u8,
            ((b >> 8) & 0xFF) as u8,
            (b & 0xFF) as u8,
        ];
        proof {
            assert(d4@[0] == ((b >> 56) & 0xFF) as u8);
            assert(d4@[1] == ((b >> 48) & 0xFF) as u8);
            assert(d4@[2] == ((b >> 40) & 0xFF) as u8);
            assert(d4@[3] == ((b >> 32) & 0xFF) as u8);
            assert(d4@[4] == ((b >> 24) & 0xFF) as u8);
            assert(d4@[5] == ((b >> 16) & 0xFF) as u8);
            assert(d4@[6] == ((b >> 8) & 0xFF) as u8);
            assert(d4@[7] == (b & 0xFF) as u8);
            assert(((b >> 0) & 0xFF) == (b & 0xFF)) by (bit_vector);
        }
        (
            ((b >> 96) & 0xFFFF_FFFF) as u32,
            ((b >> 80) & 0xFFFF) as u16,
            ((b >> 64) & 0xFFFF) as u16,
            d4,
        )
    }
}

/// The lowercase hexadecimal character of a digit value below sixteen.
pub open spec fn spec_hex_char(d: u8) -> char {
    if d < 10 {
        (48 + d) as char
    } else {
        (87 + d) as char
    }
}

/// The `j`-th base-16 digit of `bits`, counting from the most
/// significant of its 32 digits.
pub open spec fn spec_digit(bits: u128, j: int) -> u8 {
    (((bits as int) / pow(16, (31 - j) as nat)) % 16) as u8
}

/// How many digit positions of the hyphenated form lie before index `i`.
spec fn spec_digit_count(i: int) -> int {
    if i <= 8 {
        i
    } else if i <= 13 {
        i - 1
    } else if i <= 18 {
        i - 2
    } else if i <= 23 {
        i - 3
    } else {
        i - 4
    }
}

/// Which of the 32 digits stands at index `i` of the hyphenated form.
pub open spec fn spec_digit_index(i: int) -> int {
    if i < 8 {
        i
    } else if i < 13 {
        i - 1
    } else if i < 18 {
        i - 2
    } else if i < 23 {
        i - 3
    } else {
        i - 4
    }
}

/// The lowercase hyphenated character form of `bits`.
pub open spec fn spec_hyphenated(bits: u128) -> Seq<char> {
    Seq::new(
        36,
        |i: int|
            if i == 8 || i == 13 || i == 18 || i == 23 {
                '-'
            } else {
                spec_hex_char(spec_digit(bits, spec_digit_index(i)))
            },
    )
}

/// Appends the lowercase hexadecimal character of `d` to `s`.
fn push_hex_char(s: &mut String, d: u8)
    requires
        d < 16,
    ensures
        final(s)@ == old(s)@.push(spec_hex_char(d)),
{
    proof {
        reveal_strlit("0");
        reveal_strlit("1");
        reveal_strlit("2");
        reveal_strlit("3");
        reveal_strlit("4");
        reveal_strlit("5");
        reveal_strlit("6");
        reveal_strlit("7");
        reveal_strlit("8");
        reveal_strlit("9");
        reveal_strlit("a");
        reveal_strlit("b");
        reveal_strlit("c");
        reveal_strlit("d");
        reveal_strlit("e");
        reveal_strlit("f");
    }
    match d {
        0 => s.append("0"),
        1 => s.append("1"),
        2 => s.append("2"),
        3 => s.append("3"),
        4 => s.append("4"),
        5 => s.append("5"),
        6 => s.append("6"),
        7 => s.append("7"),
        8 => s.append("8"),
        9 => s.append("9"),
        10 => s.append("a"),
        11 => s.append("b"),
        12 => s.append("c"),
        13 => s.append("d"),
        14 => s.append("e"),
        _ => s.append("f"),
    }
    proof {
        assert(s@ =~= old(s)@.push(spec_hex_char(d)));
    }
}

impl Uuid {
    /// The lowercase hyphenated string form of the identifier.
    pub fn to_hyphenated_string(&self) -> (r: String)
        ensures
            r@ == spec_hyphenated(self.spec_as_u128()),
    {
        let bits = self.bits;
        let mut s = String::new();
        let mut p: u128 = 0x1000_0000_0000_0000_0000_0000_0000_0000;
        let mut j: usize = 0;
        let mut i: usize = 0;
        proof {
            assert(pow(16, 31) == 0x1000_0000_0000_0000_0000_0000_0000_0000) by {
                lemma_pow16_values();
                lemma_pow_succ(31);
            }
        }
        while i < 36
            invariant
                i <= 36,
                j == spec_digit_count(i as int),
                j < 32 ==> p == pow(16, (31 - j) as nat),
                s@ =~= spec_hyphenated(bits).take(i as int),
                bits == self.spec_as_u128(),
            decreases 36 - i,
        {
            let ghost prev = s@;
            if i == 8 || i == 13 || i == 18 || i == 23 {
                proof {
                    reveal_strlit("-");
                }
                s.append("-");
                proof {
                    assert(s@ =~= prev.push('-'));
                }
            } else {
                proof {
                    assert(j < 32);
                    vstd::arithmetic::power::lemma_pow_positive(16, (31 - j) as nat);
                }
                let d: u8 = ((bits / p) % 16) as u8;
                proof {
                    assert(d == spec_digit(bits, j as int));
                }
                push_hex_char(&mut s, d);
                if j < 31 {
                    proof {
                        lemma_pow_succ((31 - (j + 1)) as nat);
                    }
                    p = p / 16;
                }
                j = j + 1;
            }
            i = i + 1;
            proof {
                assert(s@ =~= spec_hyphenated(bits).take(i as int));
            }
        }
        proof {
            assert(spec_hyphenated(bits).take(36) =~= spec_hyphenated(bits));
        }
        s
    }
}

/// The value of a 16-bit short identifier expanded into the base identifier.
pub open spec fn spec_from_short(short: u16) -> u128 {
    BLUETOOTH_BASE_UUID | ((short as u128) << 96)
}

/// Canonicalization of short identifiers into full 128-bit ones.
pub trait ShortUuid {
    fn from_short(uuid: u16) -> (r: Uuid)
        ensures
            r.spec_as_u128() == spec_from_short(uuid),
    ;

    /// Parses `uuid_str` into an identifier. Accepts the hyphenated
    /// form, the plain 32-digit form, and 4- or 8-digit short forms,
    /// which are expanded into the base identifier.
    fn from_string(uuid_str: &str) -> (r: Uuid)
        requires
            spec_parse_uuid(uuid_str.spec_bytes()) is Some,
        ensures
            Some(r.spec_as_u128()) == spec_parse_uuid(uuid_str.spec_bytes()),
    ;
}

impl ShortUuid for Uuid {
    fn from_short(uuid: u16) -> (r: Uuid) {
        Uuid { bits: BLUETOOTH_BASE_UUID | ((uuid as u128) << 96) }
    }

    fn from_string(uuid_str: &str) -> (r: Uuid) {
        match Uuid::parse_str(uuid_str) {
            Some(r) => r,
            None => Uuid { bits: 0 },
        }
    }
}

/// Extraction of a full identifier from a native identifier value.
pub trait UuidExtension {
    /// The 128 identifier bits the value denotes.
    spec fn spec_uuid_bits(&self) -> u128;

    fn get_uuid(self) -> (r: Uuid)
        ensures
            r.spec_as_u128() == self.spec_uuid_bits(),
    ;
}

impl UuidExtension for u128 {
    open spec fn spec_uuid_bits(&self) -> u128 {
        *self
    }

    fn get_uuid(self) -> (r: Uuid) {
        Uuid::from_u128(self)
    }
}

/// Whether `b` is the ASCII code of a hexadecimal digit.
pub open spec fn is_hex_digit(b: u8) -> bool {
    (48 <= b <= 57) || (97 <= b <= 102) || (65 <= b <= 70)
}

/// The numeric value of the ASCII hexadecimal digit `b`.
pub open spec fn hex_digit_value(b: u8) -> nat {
    if 48 <= b <= 57 {
        (b - 48) as nat
    } else if 97 <= b <= 102 {
        (b - 87) as nat
    } else if 65 <= b <= 70 {
        (b - 55) as nat
    } else {
        0
    }
}

/// The value of a big-endian run of ASCII hexadecimal digits.
pub open spec fn hex_seq_value(s: Seq<u8>) -> nat
    decreases s.len(),
{
    if s.len() == 0 {
        0
    } else {
        hex_seq_value(s.drop_last()) * 16 + hex_digit_value(s.last())
    }
}

/// Whether every byte of `s` is an ASCII hexadecimal digit.
pub open spec fn all_hex_digits(s: Seq<u8>) -> bool {
    forall|i: int| 0 <= i < s.len() ==> is_hex_digit(#[trigger] s[i])
}

/// Whether `s` is the hyphenated `8-4-4-4-12` identifier form.
pub open spec fn is_hyphenated_uuid(s: Seq<u8>) -> bool {
    &&& s.len() == 36
    &&& s[8] == 45u8
    &&& s[13] == 45u8
    &&& s[18] == 45u8
    &&& s[23] == 45u8
    &&& forall|i: int|
        0 <= i < 36 && i != 8 && i != 13 && i != 18 && i != 23 ==> is_hex_digit(#[trigger] s[i])
}

/// The 32 digit bytes of a hyphenated form, with the hyphens removed.
pub open spec fn strip_hyphens(s: Seq<u8>) -> Seq<u8> {
    s.subrange(0, 8) + s.subrange(9, 13) + s.subrange(14, 18) + s.subrange(19, 23) + s.subrange(
        24,
        36,
    )
}

/// The identifier denoted by `s`, if `s` is one of the accepted forms:
/// hyphenated, plain 32-digit, or a 4- or 8-digit short form expanded
/// into the Bluetooth base identifier.
pub open spec fn spec_parse_uuid(s: Seq<u8>) -> Option<u128> {
    if is_hyphenated_uuid(s) {
        Some(hex_seq_value(strip_hyphens(s)) as u128)
    } else if s.len() == 32 && all_hex_digits(s) {
        Some(hex_seq_value(s) as u128)
    } else if (s.len() == 4 || s.len() == 8) && all_hex_digits(s) {
        Some(BLUETOOTH_BASE_UUID | ((hex_seq_value(s) as u128) << 96))
    } else {
        None
    }
}

impl Uuid {
    /// Parses `uuid_str` if it is one of the accepted identifier forms.
    pub fn parse_str(uuid_str: &str) -> (r: Option<Uuid>)
        ensures
            match r {
                Some(u) => spec_parse_uuid(uuid_str.spec_bytes()) == Some(u.spec_as_u128()),
                None => spec_parse_uuid(uuid_str.spec_bytes()) is None,
            },
    {
        let bytes = uuid_str.as_bytes();
        match parse_uuid_bytes(bytes) {
            Some(bits) => Some(Uuid { bits }),
            None => None,
        }
    }
}

/// Whether `b` is an ASCII hexadecimal digit.
fn hex_digit(b: u8) -> (r: bool)
    ensures
        r == is_hex_digit(b),
{
    (48 <= b && b <= 57) || (97 <= b && b <= 102) || (65 <= b && b <= 70)
}

/// Whether `s` has the hyphenated shape: hyphens at the four fixed
/// positions and hexadecimal digits everywhere else.
fn check_hyphenated(s: &[u8]) -> (r: bool)
    ensures
        r == is_hyphenated_uuid(s@),
{
    if s.len() != 36 {
        return false;
    }
    if !(s[8] == 45 && s[13] == 45 && s[18] == 45 && s[23] == 45) {
        return false;
    }
    let mut i: usize = 0;
    while i < 36
        invariant
            i <= 36,
            s@.len() == 36,
            forall|j: int|
                0 <= j < i && j != 8 && j != 13 && j != 18 && j != 23 ==> is_hex_digit(
                    #[trigger] s@[j],
                ),
        decreases 36 - i,
    {
        if i != 8 && i != 13 && i != 18 && i != 23 {
            if !hex_digit(s[i]) {
                return false;
            }
        }
        i = i + 1;
    }
    true
}

fn check_all_hex(s: &[u8]) -> (r: bool)
    ensures
        r == all_hex_digits(s@),
{
    let mut i: usize = 0;
    while i < s.len()
        invariant
            i <= s@.len(),
            forall|j: int| 0 <= j < i ==> is_hex_digit(#[trigger] s@[j]),
        decreases s@.len() - i,
    {
        if !hex_digit(s[i]) {
            return false;
        }
        i = i + 1;
    }
    true
}

/// Appends `s[lo..hi]` to `out`.
fn push_range(out: &mut Vec<u8>, s: &[u8], lo: usize, hi: usize)
    requires
        lo <= hi <= s@.len(),
    ensures
        final(out)@ == old(out)@ + s@.subrange(lo as int, hi as int),
{
    let mut i: usize = lo;
    while i < hi
        invariant
            lo <= i <= hi <= s@.len(),
            out@ == old(out)@ + s@.subrange(lo as int, i as int),
        decreases hi - i,
    {
        proof {
            assert(s@.subrange(lo as int, i + 1) =~= s@.subrange(lo as int, i as int).push(
                s@[i as int],
            ));
        }
        out.push(s[i]);
        i = i + 1;
    }
}

proof fn lemma_hex_seq_value_bound(s: Seq<u8>)
    ensures
        hex_seq_value(s) < pow(16, s.len()),
    decreases s.len(),
{
    vstd::arithmetic::power::lemma_pow_positive(16, s.len());
    if s.len() == 0 {
    } else {
        lemma_hex_seq_value_bound(s.drop_last());
        assert(hex_digit_value(s.last()) <= 15);
        lemma_pow_succ((s.len() - 1) as nat);
    }
}

/// `16^(k+1) == 16 * 16^k`.
proof fn lemma_pow_succ(k: nat)
    ensures
        pow(16, (k + 1) as nat) == 16 * pow(16, k),
{
    vstd::arithmetic::power::lemma_pow1(16);
    vstd::arithmetic::power::lemma_pow_adds(16, 1, k);
}

/// The concrete values of `16^8` and `16^32`.
proof fn lemma_pow16_values()
    ensures
        pow(16, 8) == 0x1_0000_0000,
        pow(16, 32) == 0x1_0000_0000_0000_0000_0000_0000_0000_0000,
{
    vstd::arithmetic::power2::lemma2_to64();
    vstd::arithmetic::power2::lemma2_to64_rest();
    vstd::arithmetic::power2::lemma_pow2(4);
    vstd::arithmetic::power2::lemma_pow2(32);
    vstd::arithmetic::power2::lemma_pow2(64);
    assert(pow(2, 4) == 16);
    vstd::arithmetic::power::lemma_pow_multiplies(2, 4, 8);
    assert(pow(16, 8) == pow(2, 32));
    vstd::arithmetic::power::lemma_pow_multiplies(2, 4, 32);
    vstd::arithmetic::power::lemma_pow_adds(2, 64, 64);
    assert(pow(16, 32) == pow(2, 128));
    assert(pow(2, 128) == pow(2, 64) * pow(2, 64));
}

/// `16^k` fits in `u128` for `k <= 32` (with `16^32` one past the maximum).
proof fn lemma_pow16_le_max(k: nat)
    requires
        k <= 32,
    ensures
        pow(16, k) <= 0x1_0000_0000_0000_0000_0000_0000_0000_0000,
{
    vstd::arithmetic::power::lemma_pow_increases(16, k, 32);
    lemma_pow16_values();
}

/// The value of the hexadecimal digits `s`, which must all be digits
/// and at most 32 of them.
fn hex_bytes_value(s: &[u8]) -> (r: u128)
    requires
        all_hex_digits(s@),
        s@.len() <= 32,
    ensures
        r == hex_seq_value(s@),
{
    proof {
        vstd::arithmetic::power::lemma_pow_positive(16, 0);
    }
    let mut acc: u128 = 0;
    let mut i: usize = 0;
    while i < s.len()
        invariant
            i <= s@.len() <= 32,
            all_hex_digits(s@),
            acc == hex_seq_value(s@.take(i as int)),
            acc < pow(16, i as nat),
        decreases s@.len() - i,
    {
        let b = s[i];
        let d: u8 = if 48 <= b && b <= 57 {
            b - 48
        } else if 97 <= b && b <= 102 {
            b - 87
        } else {
            b - 55
        };
        proof {
            assert(d == hex_digit_value(s@[i as int]));
            assert(s@.take(i + 1).drop_last() =~= s@.take(i as int));
            assert(s@.take(i + 1).last() == s@[i as int]);
            lemma_pow_succ(i as nat);
            lemma_pow16_le_max((i + 1) as nat);
        }
        acc = acc * 16 + (d as u128);
        i = i + 1;
    }
    proof {
        assert(s@.take(s@.len() as int) =~= s@);
    }
    acc
}

/// Parses the byte form of an identifier string.
fn parse_uuid_bytes(s: &[u8]) -> (r: Option<u128>)
    ensures
        r == spec_parse_uuid(s@),
{
    if check_hyphenated(s) {
        let mut digits: Vec<u8> = Vec::new();
        push_range(&mut digits, s, 0, 8);
        push_range(&mut digits, s, 9, 13);
        push_range(&mut digits, s, 14, 18);
        push_range(&mut digits, s, 19, 23);
        push_range(&mut digits, s, 24, 36);
        proof {
            assert(digits@ =~= strip_hyphens(s@));
            assert forall|i: int| 0 <= i < digits@.len() implies is_hex_digit(
                #[trigger] digits@[i],
            ) by {
                assert(digits@.len() == 32);
                if i < 8 {
                    assert(digits@[i] == s@[i]);
                } else if i < 12 {
                    assert(digits@[i] == s@[i + 1]);
                } else if i < 16 {
                    assert(digits@[i] == s@[i + 2]);
                } else if i < 20 {
                    assert(digits@[i] == s@[i + 3]);
                } else {
                    assert(digits@[i] == s@[i + 4]);
                }
            }
        }
        Some(hex_bytes_value(digits.as_slice()))
    } else if s.len() == 32 && check_all_hex(s) {
        Some(hex_bytes_value(s))
    } else if (s.len() == 4 || s.len() == 8) && check_all_hex(s) {
        let v = hex_bytes_value(s);
        proof {
            lemma_hex_seq_value_bound(s@);
            vstd::arithmetic::power::lemma_pow_increases(16, s@.len() as nat, 8);
            lemma_pow16_values();
        }
        Some(BLUETOOTH_BASE_UUID | (v << 96))
    } else {
        None
    }
}

/// The value of 32 digit codes whose digit values are the base-16
/// digits of `bits`: the first `k` of them denote the top `k` digits.
proof fn lemma_digit_codes_value(bits: u128, digits: Seq<u8>, k: int)
    requires
        digits.len() == 32,
        forall|j: int| 0 <= j < 32 ==> hex_digit_value(#[trigger] digits[j]) == spec_digit(bits, j),
        0 <= k <= 32,
    ensures
        hex_seq_value(digits.take(k)) == (bits as int) / pow(16, (32 - k) as nat),
    decreases k,
{
    vstd::arithmetic::power::lemma_pow_positive(16, (32 - k) as nat);
    if k == 0 {
        lemma_pow16_values();
        assert(digits.take(0) =~= Seq::<u8>::empty());
        vstd::arithmetic::div_mod::lemma_basic_div(bits as int, pow(16, 32));
    } else {
        lemma_digit_codes_value(bits, digits, k - 1);
        assert(digits.take(k).drop_last() =~= digits.take(k - 1));
        assert(digits.take(k).last() == digits[k - 1]);
        let m = (32 - k) as nat;
        let q = (bits as int) / pow(16, m);
        vstd::arithmetic::power::lemma_pow_positive(16, m);
        lemma_pow_succ(m);
        vstd::arithmetic::div_mod::lemma_div_denominator(bits as int, pow(16, m), 16);
        vstd::arithmetic::div_mod::lemma_fundamental_div_mod(q, 16);
        assert(hex_digit_value(digits[k - 1]) == q % 16);
        assert(hex_seq_value(digits.take(k)) == (q / 16) * 16 + q % 16);
    }
}

/// Canonicalization is lossless: the hyphenated form of an identifier
/// parses back to the identifier itself.
pub proof fn lemma_hyphenated_round_trip(bits: u128)
    ensures
        spec_parse_uuid(vstd::utf8::encode_utf8(spec_hyphenated(bits))) == Some(bits),
{
    let chars = spec_hyphenated(bits);
    assert forall|i: int| 0 <= i < chars.len() implies '\0' <= #[trigger] chars[i]
        <= '\u{7f}' by {
        if i != 8 && i != 13 && i != 18 && i != 23 {
            let d = spec_digit(bits, spec_digit_index(i));
            assert(d < 16);
        }
    }
    assert(vstd::utf8::is_ascii_chars(chars));
    vstd::utf8::is_ascii_chars_encode_utf8(chars);
    let bytes = vstd::utf8::encode_utf8(chars);
    assert(bytes.len() == 36);
    assert forall|i: int|
        0 <= i < 36 && i != 8 && i != 13 && i != 18 && i != 23 implies is_hex_digit(
        #[trigger] bytes[i],
    ) && hex_digit_value(bytes[i]) == spec_digit(bits, spec_digit_index(i)) by {
        let d = spec_digit(bits, spec_digit_index(i));
        assert(d < 16);
        assert(chars[i] == spec_hex_char(d));
        assert(bytes[i] == chars[i] as u8);
        if d < 10 {
            assert(bytes[i] == 48 + d);
        } else {
            assert(bytes[i] == 87 + d);
        }
    }
    assert(bytes[8] == 45u8 && bytes[13] == 45u8 && bytes[18] == 45u8 && bytes[23] == 45u8) by {
        assert(chars[8] == '-' && chars[13] == '-' && chars[18] == '-' && chars[23] == '-');
        assert(bytes[8] == chars[8] as u8);
        assert(bytes[13] == chars[13] as u8);
        assert(bytes[18] == chars[18] as u8);
        assert(bytes[23] == chars[23] as u8);
    }
    assert(is_hyphenated_uuid(bytes));
    let digits = strip_hyphens(bytes);
    assert(digits.len() == 32);
    assert forall|j: int| 0 <= j < 32 implies hex_digit_value(#[trigger] digits[j]) == spec_digit(
        bits,
        j,
    ) by {
        if j < 8 {
            assert(digits[j] == bytes[j]);
            assert(spec_digit_index(j) == j);
        } else if j < 12 {
            assert(digits[j] == bytes[j + 1]);
            assert(spec_digit_index(j + 1) == j);
        } else if j < 16 {
            assert(digits[j] == bytes[j + 2]);
            assert(spec_digit_index(j + 2) == j);
        } else if j < 20 {
            assert(digits[j] == bytes[j + 3]);
            assert(spec_digit_index(j + 3) == j);
        } else {
            assert(digits[j] == bytes[j + 4]);
            assert(spec_digit_index(j + 4) == j);
        }
    }
    lemma_digit_codes_value(bits, digits, 32);
    assert(digits.take(32) =~= digits);
    assert(pow(16, 0) == 1) by {
        vstd::arithmetic::power::lemma_pow0(16);
    }
    assert(hex_seq_value(digits) == bits);
}

} // verus!
