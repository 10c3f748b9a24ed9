//! The subscription tracker.
//!
//! Native backends report the *entire* current subscriber set of a
//! characteristic on every change; the tracker keeps the last known set
//! per (service, characteristic) and turns each snapshot into the lists
//! of newly added and newly removed clients. The events built from them
//! report all additions before all removals, so the application never
//! observes a spurious double subscription.

use crate::gatt::peripheral_event::{PeripheralEvent, PeripheralRequest};
use crate::uuid::Uuid;
use vstd::prelude::*;

verus! {

/// The character views of a list of client identifiers.
pub open spec fn client_views(s: Seq<String>) -> Seq<Seq<char>> {
    s.map_values(|c: String| c@)
}

/// One tracked characteristic: its key and its last known subscribers.
struct SubscriptionEntry {
    service: u128,
    characteristic: u128,
    clients: Vec<String>,
}

/// The last known subscriber set per (service, characteristic).
pub struct SubscriptionTracker {
    entries: Vec<SubscriptionEntry>,
}

/// The stored subscribers of the key in `entries` — empty when the key
/// was never observed.
spec fn spec_lookup(entries: Seq<SubscriptionEntry>, s: u128, c: u128) -> Seq<Seq<char>>
    decreases entries.len(),
{
    if entries.len() == 0 {
        Seq::empty()
    } else if entries[0].service == s && entries[0].characteristic == c {
        client_views(entries[0].clients@)
    } else {
        spec_lookup(entries.drop_first(), s, c)
    }
}

/// Looking up a key that no entry carries yields the empty set.
proof fn lemma_lookup_none(entries: Seq<SubscriptionEntry>, s: u128, c: u128)
    requires
        forall|j: int|
            0 <= j < entries.len() ==> !(#[trigger] entries[j].service == s && entries[j].characteristic
                == c),
    ensures
        spec_lookup(entries, s, c) == Seq::<Seq<char>>::empty(),
    decreases entries.len(),
{
    if entries.len() == 0 {
    } else {
        assert(entries[0].service != s || entries[0].characteristic != c);
        assert(forall|j: int|
            0 <= j < entries.drop_first().len() ==> #[trigger] entries.drop_first()[j]
                == entries[j + 1]);
        lemma_lookup_none(entries.drop_first(), s, c);
    }
}

/// Looking up the key of the first matching entry yields its clients.
proof fn lemma_lookup_at(entries: Seq<SubscriptionEntry>, i: int, s: u128, c: u128)
    requires
        0 <= i < entries.len(),
        entries[i].service == s && entries[i].characteristic == c,
        forall|j: int|
            0 <= j < i ==> !(#[trigger] entries[j].service == s && entries[j].characteristic == c),
    ensures
        spec_lookup(entries, s, c) == client_views(entries[i].clients@),
    decreases i,
{
    if i == 0 {
    } else {
        assert(entries[0].service != s || entries[0].characteristic != c);
        assert(forall|j: int|
            0 <= j < entries.drop_first().len() ==> #[trigger] entries.drop_first()[j]
                == entries[j + 1]);
        lemma_lookup_at(entries.drop_first(), i - 1, s, c);
    }
}

impl SubscriptionTracker {
    /// Each key is tracked by at most one entry.
    pub closed spec fn wf(&self) -> bool {
        forall|i: int, j: int|
            0 <= i < j < self.entries@.len() ==> !(#[trigger] self.entries@[i].service
                == #[trigger] self.entries@[j].service && self.entries@[i].characteristic
                == self.entries@[j].characteristic)
    }

    /// The last known subscribers of the key — empty if never observed.
    pub closed spec fn spec_subscribers(&self, service: u128, characteristic: u128) -> Seq<
        Seq<char>,
    > {
        spec_lookup(self.entries@, service, characteristic)
    }

    /// A tracker with no characteristic observed yet.
    pub fn new() -> (r: SubscriptionTracker)
        ensures
            r.wf(),
            forall|s: u128, c: u128| r.spec_subscribers(s, c) == Seq::<Seq<char>>::empty(),
    {
        SubscriptionTracker { entries: Vec::new() }
    }

    /// The index of the entry for the key, if one exists.
    fn find_index(&self, s: u128, c: u128) -> (r: Option<usize>)
        ensures
            r matches Some(i) ==> i < self.entries@.len() && self.entries@[i as int].service == s
                && self.entries@[i as int].characteristic == c && (forall|j: int|
                0 <= j < i ==> !(#[trigger] self.entries@[j].service == s
                    && self.entries@[j].characteristic == c)),
            r is None ==> forall|j: int|
                0 <= j < self.entries@.len() ==> !(#[trigger] self.entries@[j].service == s
                    && self.entries@[j].characteristic == c),
    {
        let mut i: usize = 0;
        while i < self.entries.len()
            invariant
                i <= self.entries@.len(),
                forall|j: int|
                    0 <= j < i ==> !(#[trigger] self.entries@[j].service == s
                        && self.entries@[j].characteristic == c),
            decreases self.entries@.len() - i,
        {
            if self.entries[i].service == s && self.entries[i].characteristic == c {
                return Some(i);
            }
            i = i + 1;
        }
        None
    }

    /// The last known subscribers of `(service, characteristic)`.
    pub fn subscribers(&self, service: Uuid, characteristic: Uuid) -> (r: Vec<String>)
        ensures
            client_views(r@) == self.spec_subscribers(
                service.spec_as_u128(),
                characteristic.spec_as_u128(),
            ),
    {
        let s = service.as_u128();
        let c = characteristic.as_u128();
        match self.find_index(s, c) {
            Some(i) => {
                let r = clone_clients(&self.entries[i].clients);
                proof {
                    lemma_lookup_at(self.entries@, i as int, s, c);
                }
                r
            },
            None => {
                proof {
                    lemma_lookup_none(self.entries@, s, c);
                    assert(client_views(Seq::<String>::empty()) =~= Seq::<Seq<char>>::empty());
                }
                Vec::new()
            },
        }
    }

    /// Applies the current native snapshot for `(service, characteristic)`
    /// and returns the diff against the last known set: the clients that
    /// are new in `current`, and the ones that disappeared from it, each
    /// in the order of the list they come from. The stored set becomes
    /// `current`; a first observation treats every current subscriber as
    /// added.
    pub fn update(&mut self, service: Uuid, characteristic: Uuid, current: Vec<String>) -> (r: (
        Vec<String>,
        Vec<String>,
    ))
        requires
            old(self).wf(),
        ensures
            final(self).wf(),
            final(self).spec_subscribers(service.spec_as_u128(), characteristic.spec_as_u128())
                == client_views(current@),
            forall|s2: u128, c2: u128|
                !(s2 == service.spec_as_u128() && c2 == characteristic.spec_as_u128())
                    ==> final(self).spec_subscribers(s2, c2) == old(self).spec_subscribers(s2, c2),
            client_views(r.0@) == client_views(current@).filter(
                |cv: Seq<char>|
                    !old(self).spec_subscribers(
                        service.spec_as_u128(),
                        characteristic.spec_as_u128(),
                    ).contains(cv),
            ),
            client_views(r.1@) == old(self).spec_subscribers(
                service.spec_as_u128(),
                characteristic.spec_as_u128(),
            ).filter(|cv: Seq<char>| !client_views(current@).contains(cv)),
    {
        let s = service.as_u128();
        let c = characteristic.as_u128();
        let prev: Vec<String> = self.subscribers(service, characteristic);
        let added = filter_not_in(&current, &prev);
        let removed = filter_not_in(&prev, &current);
        match self.find_index(s, c) {
            Some(i) => {
                proof {
                    lemma_lookup_at(self.entries@, i as int, s, c);
                }
                let mut entry = self.entries.remove(i);
                entry.clients = current;
                self.entries.insert(i, entry);
                proof {
                    lemma_update_entry(old(self).entries@, self.entries@, i as int, s, c);
                }
            },
            None => {
                self.entries.push(SubscriptionEntry { service: s, characteristic: c, clients: current });
                proof {
                    lemma_append_entry(old(self).entries@, self.entries@, s, c);
                }
            },
        }
        (added, removed)
    }
}

/// After replacing the clients of the matching entry at `i`, the lookup
/// of its key yields the new clients and every other key is unchanged.
proof fn lemma_update_entry(
    before: Seq<SubscriptionEntry>,
    after: Seq<SubscriptionEntry>,
    i: int,
    s: u128,
    c: u128,
)
    requires
        0 <= i < before.len(),
        after.len() == before.len(),
        forall|j: int| 0 <= j < before.len() && j != i ==> after[j] == before[j],
        after[i].service == s && after[i].characteristic == c,
        before[i].service == s && before[i].characteristic == c,
        forall|j: int|
            0 <= j < i ==> !(#[trigger] before[j].service == s && before[j].characteristic == c),
    ensures
        spec_lookup(after, s, c) == client_views(after[i].clients@),
        forall|s2: u128, c2: u128|
            !(s2 == s && c2 == c) ==> spec_lookup(after, s2, c2) == spec_lookup(before, s2, c2),
    decreases before.len(),
{
    assert forall|j: int| 0 <= j < i implies !(#[trigger] after[j].service == s
        && after[j].characteristic == c) by {}
    lemma_lookup_at(after, i, s, c);
    assert forall|s2: u128, c2: u128| !(s2 == s && c2 == c) implies spec_lookup(after, s2, c2)
        == spec_lookup(before, s2, c2) by {
        lemma_lookup_agree(before, after, s2, c2);
    }
}

/// Two entry lists that agree on every entry except ones whose key
/// differs only in its clients at one shared-key position agree on the
/// lookup of every other key.
proof fn lemma_lookup_agree(
    before: Seq<SubscriptionEntry>,
    after: Seq<SubscriptionEntry>,
    s2: u128,
    c2: u128,
)
    requires
        after.len() == before.len(),
        forall|j: int|
            0 <= j < before.len() ==> (#[trigger] after[j].service == before[j].service
                && after[j].characteristic == before[j].characteristic),
        forall|j: int|
            0 <= j < before.len() ==> (after[j].service == s2 && after[j].characteristic == c2
                ==> #[trigger] after[j].clients == before[j].clients),
    ensures
        spec_lookup(after, s2, c2) == spec_lookup(before, s2, c2),
    decreases before.len(),
{
    if before.len() == 0 {
    } else {
        assert(forall|j: int|
            0 <= j < before.drop_first().len() ==> #[trigger] before.drop_first()[j] == before[j
                + 1]);
        assert(forall|j: int|
            0 <= j < after.drop_first().len() ==> #[trigger] after.drop_first()[j] == after[j + 1]);
        lemma_lookup_agree(before.drop_first(), after.drop_first(), s2, c2);
    }
}

/// After appending a fresh entry for a key no earlier entry carries,
/// the lookup of that key yields the new clients and every other key is
/// unchanged.
proof fn lemma_append_entry(
    before: Seq<SubscriptionEntry>,
    after: Seq<SubscriptionEntry>,
    s: u128,
    c: u128,
)
    requires
        after.len() == before.len() + 1,
        forall|j: int| 0 <= j < before.len() ==> after[j] == before[j],
        after[before.len() as int].service == s,
        after[before.len() as int].characteristic == c,
        forall|j: int|
            0 <= j < before.len() ==> !(#[trigger] before[j].service == s
                && before[j].characteristic == c),
    ensures
        spec_lookup(after, s, c) == client_views(after[before.len() as int].clients@),
        forall|s2: u128, c2: u128|
            !(s2 == s && c2 == c) ==> spec_lookup(after, s2, c2) == spec_lookup(before, s2, c2),
    decreases before.len(),
{
    assert forall|j: int| 0 <= j < before.len() implies !(#[trigger] after[j].service == s
        && after[j].characteristic == c) by {}
    lemma_lookup_at(after, before.len() as int, s, c);
    assert forall|s2: u128, c2: u128| !(s2 == s && c2 == c) implies spec_lookup(after, s2, c2)
        == spec_lookup(before, s2, c2) by {
        lemma_lookup_drop_irrelevant(before, after, s2, c2);
    }
}

/// Appending an entry of a different key does not change a lookup.
proof fn lemma_lookup_drop_irrelevant(
    before: Seq<SubscriptionEntry>,
    after: Seq<SubscriptionEntry>,
    s2: u128,
    c2: u128,
)
    requires
        after.len() == before.len() + 1,
        forall|j: int| 0 <= j < before.len() ==> after[j] == before[j],
        !(after[before.len() as int].service == s2 && after[before.len() as int].characteristic
            == c2),
    ensures
        spec_lookup(after, s2, c2) == spec_lookup(before, s2, c2),
    decreases before.len(),
{
    if before.len() == 0 {
        assert(after.drop_first().len() == 0);
        assert(spec_lookup(after.drop_first(), s2, c2) == Seq::<Seq<char>>::empty());
        assert(spec_lookup(before, s2, c2) == Seq::<Seq<char>>::empty());
    } else {
        assert(forall|j: int|
            0 <= j < before.drop_first().len() ==> #[trigger] before.drop_first()[j] == before[j
                + 1]);
        assert(forall|j: int|
            0 <= j < after.drop_first().len() ==> #[trigger] after.drop_first()[j] == after[j + 1]);
        lemma_lookup_drop_irrelevant(before.drop_first(), after.drop_first(), s2, c2);
    }
}

/// Whether `clients` lists an identifier with the characters of `c`.
fn contains_client(clients: &Vec<String>, c: &String) -> (r: bool)
    ensures
        r == client_views(clients@).contains(c@),
{
    let mut i: usize = 0;
    while i < clients.len()
        invariant
            i <= clients@.len(),
            forall|j: int| 0 <= j < i ==> client_views(clients@)[j] != c@,
        decreases clients@.len() - i,
    {
        if clients[i].eq(c) {
            assert(client_views(clients@)[i as int] == c@);
            return true;
        }
        i = i + 1;
    }
    false
}

/// A copy of a client list with the same identifiers.
fn clone_clients(clients: &Vec<String>) -> (r: Vec<String>)
    ensures
        client_views(r@) == client_views(clients@),
{
    let mut out: Vec<String> = Vec::new();
    let mut i: usize = 0;
    while i < clients.len()
        invariant
            i <= clients@.len(),
            client_views(out@) =~= client_views(clients@).take(i as int),
        decreases clients@.len() - i,
    {
        let ghost prev = out@;
        out.push(clients[i].clone());
        proof {
            assert(out@ == prev.push(clients@[i as int]));
            assert(client_views(out@) =~= client_views(prev).push(clients@[i as int]@));
            assert(client_views(clients@).take(i + 1) =~= client_views(clients@).take(
                i as int,
            ).push(clients@[i as int]@));
        }
        i = i + 1;
    }
    proof {
        assert(client_views(clients@).take(clients@.len() as int) =~= client_views(clients@));
    }
    out
}

/// The identifiers of `xs` that `ys` does not list, in the order of
/// `xs`.
fn filter_not_in(xs: &Vec<String>, ys: &Vec<String>) -> (r: Vec<String>)
    ensures
        client_views(r@) == client_views(xs@).filter(
            |cv: Seq<char>| !client_views(ys@).contains(cv),
        ),
{
    let ghost pred = |cv: Seq<char>| !client_views(ys@).contains(cv);
    let mut out: Vec<String> = Vec::new();
    let mut i: usize = 0;
    while i < xs.len()
        invariant
            i <= xs@.len(),
            client_views(out@) =~= client_views(xs@).take(i as int).filter(pred),
            pred == (|cv: Seq<char>| !client_views(ys@).contains(cv)),
        decreases xs@.len() - i,
    {
        proof {
            broadcast use Seq::lemma_filter_push;

            assert(client_views(xs@).take(i + 1) =~= client_views(xs@).take(i as int).push(
                xs@[i as int]@,
            ));
        }
        if !contains_client(ys, &xs[i]) {
            out.push(xs[i].clone());
        }
        i = i + 1;
    }
    proof {
        assert(client_views(xs@).take(xs@.len() as int) =~= client_views(xs@));
    }
    out
}

/// The events for one snapshot: one subscription update per added
/// client, then one per removed client — additions always precede
/// removals.
pub fn subscription_events(
    service: Uuid,
    characteristic: Uuid,
    added: Vec<String>,
    removed: Vec<String>,
) -> (r: Vec<PeripheralEvent>)
    ensures
        r@.len() == added@.len() + removed@.len(),
        forall|i: int|
            0 <= i < added@.len() ==> (#[trigger] r@[i] matches
                PeripheralEvent::CharacteristicSubscriptionUpdate { request, subscribed }
                && subscribed && request.client@ == client_views(added@)[i] && request.service
                == service && request.characteristic == characteristic),
        forall|i: int|
            added@.len() <= i < r@.len() ==> (#[trigger] r@[i] matches
                PeripheralEvent::CharacteristicSubscriptionUpdate { request, subscribed }
                && !subscribed && request.client@ == client_views(removed@)[i - added@.len()]
                && request.service == service && request.characteristic == characteristic),
{
    let mut out: Vec<PeripheralEvent> = Vec::new();
    let mut i: usize = 0;
    while i < added.len()
        invariant
            i <= added@.len(),
            out@.len() == i,
            forall|j: int|
                0 <= j < i ==> (#[trigger] out@[j] matches
                    PeripheralEvent::CharacteristicSubscriptionUpdate { request, subscribed }
                    && subscribed && request.client@ == client_views(added@)[j] && request.service
                    == service && request.characteristic == characteristic),
        decreases added@.len() - i,
    {
        out.push(
            PeripheralEvent::CharacteristicSubscriptionUpdate {
                request: PeripheralRequest {
                    client: added[i].clone(),
                    service,
                    characteristic,
                },
                subscribed: true,
            },
        );
        i = i + 1;
    }
    let mut k: usize = 0;
    while k < removed.len()
        invariant
            k <= removed@.len(),
            out@.len() == added@.len() + k,
            forall|j: int|
                0 <= j < added@.len() ==> (#[trigger] out@[j] matches
                    PeripheralEvent::CharacteristicSubscriptionUpdate { request, subscribed }
                    && subscribed && request.client@ == client_views(added@)[j] && request.service
                    == service && request.characteristic == characteristic),
            forall|j: int|
                added@.len() <= j < out@.len() ==> (#[trigger] out@[j] matches
                    PeripheralEvent::CharacteristicSubscriptionUpdate { request, subscribed }
                    && !subscribed && request.client@ == client_views(removed@)[j - added@.len()]
                    && request.service == service && request.characteristic == characteristic),
        decreases removed@.len() - k,
    {
        out.push(
            PeripheralEvent::CharacteristicSubscriptionUpdate {
                request: PeripheralRequest {
                    client: removed[k].clone(),
                    service,
                    characteristic,
                },
                subscribed: false,
            },
        );
        k = k + 1;
    }
    out
}

/// An unchanged snapshot yields no events: when the current set equals
/// the stored one, both the added and the removed list are empty.
pub proof fn lemma_no_change_no_events(prev: Seq<Seq<char>>)
    ensures
        prev.filter(|cv: Seq<char>| !prev.contains(cv)) == Seq::<Seq<char>>::empty(),
{
    lemma_filter_all_false(prev, |cv: Seq<char>| !prev.contains(cv));
}

/// Filtering with a predicate false on every element yields the empty
/// sequence.
proof fn lemma_filter_all_false(s: Seq<Seq<char>>, p: spec_fn(Seq<char>) -> bool)
    requires
        forall|i: int| 0 <= i < s.len() ==> !p(#[trigger] s[i]),
    ensures
        s.filter(p) == Seq::<Seq<char>>::empty(),
    decreases s.len(),
{
    reveal(Seq::filter);
    if s.len() == 0 {
        assert(s.filter(p) =~= Seq::<Seq<char>>::empty());
    } else {
        lemma_filter_all_false(s.drop_last(), p);
        assert(!p(s.last()));
        assert(s.filter(p) =~= s.drop_last().filter(p));
    }
}

} // verus!
