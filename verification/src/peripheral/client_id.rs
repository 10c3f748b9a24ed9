//! Client identifier extraction.
//!
//! The Windows backend names a remote client by the tail of its session
//! device identifier: the part after the last dash. The extraction is
//! pure string logic and lives here; reading the identifier from the
//! native session stays with the backend.

use vstd::prelude::*;
use vstd::string::{StrSliceExecFns, StringExecFns};

verus! {

/// The characters after the last dash of `s` — all of `s` when it has
/// no dash.
pub open spec fn spec_tail_after_dash(s: Seq<char>) -> Seq<char>
    decreases s.len(),
{
    if s.len() == 0 {
        Seq::empty()
    } else if s.last() == '-' {
        Seq::empty()
    } else {
        spec_tail_after_dash(s.drop_last()).push(s.last())
    }
}

/// Splitting at any dash-free cut `k`: the tail of `s` is the tail of
/// the prefix followed by the suffix.
proof fn lemma_tail_suffix(s: Seq<char>, k: int)
    requires
        0 <= k <= s.len(),
        forall|m: int| k <= m < s.len() ==> s[m] != '-',
    ensures
        spec_tail_after_dash(s) =~= spec_tail_after_dash(s.take(k)) + s.subrange(k, s.len() as int),
    decreases s.len() - k,
{
    if k == s.len() {
        assert(s.take(k) =~= s);
    } else {
        assert(s.last() != '-');
        lemma_tail_suffix(s.drop_last(), k);
        assert(s.drop_last().take(k) =~= s.take(k));
        assert(s.drop_last().subrange(k, s.len() - 1).push(s.last()) =~= s.subrange(
            k,
            s.len() as int,
        ));
    }
}

/// Whether the character at `idx` of `id` is a dash.
fn char_at_is_dash(id: &str, idx: usize) -> (r: bool)
    requires
        idx < id@.len(),
    ensures
        r == (id@[idx as int] == '-'),
{
    id.get_char(idx) == '-'
}

/// The client identifier in a full device identifier: what follows the
/// last dash, or the whole identifier when it has none.
pub fn device_id_from_full_id(full_id: &str) -> (r: String)
    ensures
        r@ == spec_tail_after_dash(full_id@),
{
    let n = full_id.unicode_len();
    let mut k: usize = n;
    while k > 0 && !char_at_is_dash(full_id, k - 1)
        invariant
            k <= n == full_id@.len(),
            forall|m: int| k <= m < n ==> full_id@[m] != '-',
        decreases k,
    {
        k = k - 1;
    }
    let tail = full_id.substring_char(k, n);
    proof {
        lemma_tail_suffix(full_id@, k as int);
        if k > 0 {
            assert(full_id@[k - 1] == '-');
            assert(full_id@.take(k as int).last() == '-');
            assert(spec_tail_after_dash(full_id@.take(k as int)) =~= Seq::<char>::empty());
        } else {
            assert(full_id@.take(0) =~= Seq::<char>::empty());
        }
        assert(tail@ =~= spec_tail_after_dash(full_id@));
    }
    String::from_str(tail)
}

} // verus!
