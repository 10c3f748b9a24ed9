//! The keyed completion waiter.
//!
//! Confirmation-style operations — advertising started, service added —
//! are resolved asynchronously and by identifier rather than per call.
//! The delegate keeps one single-use wait slot per key, at most one in
//! flight per key; the waiting side applies a fixed timeout and must
//! deregister the key on success and on timeout alike, so a key can be
//! reused afterwards.

use crate::error::{Error, ErrorType};
use crate::uuid::Uuid;
use tokio::sync::oneshot;
use vstd::prelude::*;
use vstd::string::StringExecFns;

verus! {

/// The bound a completion wait applies, in milliseconds.
pub const COMPLETION_WAIT_TIMEOUT_MS: u64 = 5000;

/// How a completion wait ended: the confirmation arrived (with no
/// description on success, or the backend's error description), the
/// wait slot was dropped unresolved, or the bound elapsed first.
pub enum WaitOutcome {
    Completed(Option<String>),
    ChannelClosed,
    TimedOut,
}

/// The completion waiter: one optional advertisement wait, and one wait
/// slot per service key.
pub struct PeripheralDelegate {
    advertisement_resolver: Option<oneshot::Sender<Option<String>>>,
    services_resolver: Vec<(u128, oneshot::Sender<Option<String>>)>,
}

impl PeripheralDelegate {
    /// The keys of the service waits in flight, in registration order.
    pub closed spec fn service_wait_keys(&self) -> Seq<u128> {
        self.services_resolver@.map_values(|p: (u128, oneshot::Sender<Option<String>>)| p.0)
    }

    /// At most one wait is in flight per key.
    pub closed spec fn wf(&self) -> bool {
        self.service_wait_keys().no_duplicates()
    }

    pub closed spec fn spec_is_waiting_for_advertisement(&self) -> bool {
        self.advertisement_resolver is Some
    }

    pub open spec fn spec_is_waiting_for_service(&self, service: Uuid) -> bool {
        self.service_wait_keys().contains(service.spec_as_u128())
    }

    /// A delegate with no wait in flight.
    pub fn new() -> (r: PeripheralDelegate)
        ensures
            r.wf(),
            !r.spec_is_waiting_for_advertisement(),
            r.service_wait_keys() == Seq::<u128>::empty(),
    {
        let r = PeripheralDelegate { advertisement_resolver: None, services_resolver: Vec::new() };
        proof {
            assert(r.service_wait_keys() =~= Seq::<u128>::empty());
        }
        r
    }

    pub fn is_waiting_for_advertisement_result(&self) -> (r: bool)
        ensures
            r == self.spec_is_waiting_for_advertisement(),
    {
        self.advertisement_resolver.is_some()
    }

    /// Registers the advertisement wait and returns the receiving half
    /// the waiter awaits; fails while a wait is already in flight.
    pub fn begin_advertisement_wait(&mut self) -> (r: Result<
        oneshot::Receiver<Option<String>>,
        Error,
    >)
        ensures
            final(self).wf() == old(self).wf(),
            final(self).service_wait_keys() == old(self).service_wait_keys(),
            r is Ok <==> !old(self).spec_is_waiting_for_advertisement(),
            r is Ok ==> final(self).spec_is_waiting_for_advertisement(),
            r is Err ==> final(self).spec_is_waiting_for_advertisement(),
            r matches Err(e) ==> e.spec_error_type() == ErrorType::CoreBluetooth
                && e.spec_description() == "Already in progress"@,
    {
        if self.advertisement_resolver.is_some() {
            Err(
                Error::from_string(
                    String::from_str("Already in progress"),
                    ErrorType::CoreBluetooth,
                ),
            )
        } else {
            let (tx, rx) = oneshot::channel();
            self.advertisement_resolver = Some(tx);
            Ok(rx)
        }
    }

    /// Completes the advertisement wait if one is in flight: a `None`
    /// description resolves it as success, any description as a backend
    /// error. Without a wait in flight this is a no-op. Returns whether
    /// a wait was present.
    pub fn resolve_advertisement(&mut self, error_description: Option<String>) -> (r: bool)
        ensures
            final(self).wf() == old(self).wf(),
            r == old(self).spec_is_waiting_for_advertisement(),
            !final(self).spec_is_waiting_for_advertisement(),
            final(self).service_wait_keys() == old(self).service_wait_keys(),
    {
        match self.advertisement_resolver.take() {
            Some(tx) => {
                let _ = tx.send(error_description);
                true
            },
            None => false,
        }
    }

    /// Deregisters the advertisement wait, whether it was resolved or
    /// timed out, so a new one can begin.
    pub fn finish_advertisement_wait(&mut self)
        ensures
            final(self).wf() == old(self).wf(),
            !final(self).spec_is_waiting_for_advertisement(),
            final(self).service_wait_keys() == old(self).service_wait_keys(),
    {
        self.advertisement_resolver = None;
    }

    /// The index of the wait slot for `key`, if one is in flight.
    fn find_service_index(&self, key: u128) -> (r: Option<usize>)
        ensures
            r matches Some(i) ==> i < self.service_wait_keys().len()
                && self.service_wait_keys()[i as int] == key,
            r is None ==> !self.service_wait_keys().contains(key),
    {
        let mut i: usize = 0;
        while i < self.services_resolver.len()
            invariant
                i <= self.services_resolver@.len(),
                forall|j: int| 0 <= j < i ==> self.service_wait_keys()[j] != key,
        decreases self.services_resolver@.len() - i,
        {
            if self.services_resolver[i].0 == key {
                return Some(i);
            }
            i = i + 1;
        }
        None
    }

    pub fn is_waiting_for_service_result(&self, service: Uuid) -> (r: bool)
        ensures
            r == self.spec_is_waiting_for_service(service),
    {
        let key = service.as_u128();
        match self.find_service_index(key) {
            Some(_) => true,
            None => false,
        }
    }

    /// Registers a wait for `service` and returns the receiving half the
    /// waiter awaits; fails while a wait for the same key is in flight.
    pub fn begin_service_wait(&mut self, service: Uuid) -> (r: Result<
        oneshot::Receiver<Option<String>>,
        Error,
    >)
        requires
            old(self).wf(),
        ensures
            final(self).wf(),
            final(self).spec_is_waiting_for_advertisement() == old(
                self,
            ).spec_is_waiting_for_advertisement(),
            r is Ok <==> !old(self).spec_is_waiting_for_service(service),
            r is Ok ==> final(self).service_wait_keys() == old(self).service_wait_keys().push(
                service.spec_as_u128(),
            ) && final(self).spec_is_waiting_for_service(service),
            r is Err ==> final(self).service_wait_keys() == old(self).service_wait_keys(),
            r matches Err(e) ==> e.spec_error_type() == ErrorType::CoreBluetooth
                && e.spec_description() == "Already in progress"@,
    {
        let key = service.as_u128();
        match self.find_service_index(key) {
            Some(_) => Err(
                Error::from_string(
                    String::from_str("Already in progress"),
                    ErrorType::CoreBluetooth,
                ),
            ),
            None => {
                let (tx, rx) = oneshot::channel();
                self.services_resolver.push((key, tx));
                proof {
                    assert(self.service_wait_keys() =~= old(
                        self,
                    ).service_wait_keys().push(key));
                    assert(self.service_wait_keys().last() == key);
                }
                Ok(rx)
            },
        }
    }

    /// Removes and returns the wait slot for `service`, if one is in
    /// flight; every other key is untouched.
    fn remove_service_slot(&mut self, service: Uuid) -> (r: Option<
        oneshot::Sender<Option<String>>,
    >)
        requires
            old(self).wf(),
        ensures
            final(self).wf(),
            final(self).spec_is_waiting_for_advertisement() == old(
                self,
            ).spec_is_waiting_for_advertisement(),
            r is Some <==> old(self).spec_is_waiting_for_service(service),
            !final(self).spec_is_waiting_for_service(service),
            forall|k: u128|
                k != service.spec_as_u128() ==> (final(self).service_wait_keys().contains(k)
                    <==> old(self).service_wait_keys().contains(k)),
    {
        let key = service.as_u128();
        match self.find_service_index(key) {
            Some(i) => {
                let ghost oldkeys = self.service_wait_keys();
                let (_, tx) = self.services_resolver.remove(i);
                proof {
                    let newkeys = self.service_wait_keys();
                    assert(newkeys =~= oldkeys.remove(i as int));
                    assert forall|j: int| 0 <= j < newkeys.len() implies newkeys[j] == (
                        if j < i { oldkeys[j] } else { oldkeys[j + 1] }
                    ) by {}
                    assert forall|j: int| 0 <= j < newkeys.len() implies newkeys[j] != key by {
                        if j < i {
                            assert(oldkeys[j] != oldkeys[i as int]);
                        } else {
                            assert(oldkeys[j + 1] != oldkeys[i as int]);
                        }
                    }
                    assert(newkeys.no_duplicates());
                    assert forall|k: u128| k != key && oldkeys.contains(k) implies newkeys.contains(
                        k,
                    ) by {
                        let j = choose|j: int| 0 <= j < oldkeys.len() && oldkeys[j] == k;
                        if j < i {
                            assert(newkeys[j] == k);
                        } else {
                            assert(newkeys[j - 1] == k);
                        }
                    }
                }
                Some(tx)
            },
            None => None,
        }
    }

    /// Completes the wait for `service` if one is in flight: a `None`
    /// description resolves it as success, any description as a backend
    /// error. Without a wait in flight this is a no-op. Returns whether
    /// a wait was present.
    pub fn resolve_service(&mut self, service: Uuid, error_description: Option<String>) -> (r:
        bool)
        requires
            old(self).wf(),
        ensures
            final(self).wf(),
            final(self).spec_is_waiting_for_advertisement() == old(
                self,
            ).spec_is_waiting_for_advertisement(),
            r == old(self).spec_is_waiting_for_service(service),
            !final(self).spec_is_waiting_for_service(service),
            forall|k: u128|
                k != service.spec_as_u128() ==> (final(self).service_wait_keys().contains(k)
                    <==> old(self).service_wait_keys().contains(k)),
    {
        match self.remove_service_slot(service) {
            Some(tx) => {
                let _ = tx.send(error_description);
                true
            },
            None => false,
        }
    }

    /// Deregisters the wait for `service`, whether it was resolved or
    /// timed out, so the key can be reused.
    pub fn finish_service_wait(&mut self, service: Uuid)
        requires
            old(self).wf(),
        ensures
            final(self).wf(),
            final(self).spec_is_waiting_for_advertisement() == old(
                self,
            ).spec_is_waiting_for_advertisement(),
            !final(self).spec_is_waiting_for_service(service),
            forall|k: u128|
                k != service.spec_as_u128() ==> (final(self).service_wait_keys().contains(k)
                    <==> old(self).service_wait_keys().contains(k)),
    {
        let _ = self.remove_service_slot(service);
    }

    /// Maps how a wait ended onto the caller's result: completion
    /// without a description is success, a description is a backend
    /// error carrying it, a dropped slot is a channel error, and an
    /// elapsed bound is the timeout error.
    pub fn resolve_event(&self, event: WaitOutcome) -> (r: Result<(), Error>)
        ensures
            r is Ok <==> event == WaitOutcome::Completed(None::<String>),
            event matches WaitOutcome::Completed(Some(desc)) ==> (r matches Err(e)
                && e.spec_error_type() == ErrorType::CoreBluetooth && e.spec_description()
                == desc@),
            event is ChannelClosed ==> (r matches Err(e) && e.spec_error_type()
                == ErrorType::CoreBluetooth && e.spec_description()
                == "Channel error while waiting"@),
            event is TimedOut ==> (r matches Err(e) && e.spec_error_type()
                == ErrorType::CoreBluetooth && e.spec_description()
                == "Timeout waiting for event"@),
    {
        match event {
            WaitOutcome::Completed(None) => Ok(()),
            WaitOutcome::Completed(Some(desc)) => Err(
                Error::from_string(desc, ErrorType::CoreBluetooth),
            ),
            WaitOutcome::ChannelClosed => Err(
                Error::from_string(
                    String::from_str("Channel error while waiting"),
                    ErrorType::CoreBluetooth,
                ),
            ),
            WaitOutcome::TimedOut => Err(
                Error::from_string(
                    String::from_str("Timeout waiting for event"),
                    ErrorType::CoreBluetooth,
                ),
            ),
        }
    }
}

/// Whether a wait that began at `start_ms` has exceeded the fixed bound
/// at `now_ms`.
pub fn wait_timed_out(start_ms: u64, now_ms: u64) -> (r: bool)
    requires
        start_ms + COMPLETION_WAIT_TIMEOUT_MS <= u64::MAX,
    ensures
        r == (now_ms >= start_ms + COMPLETION_WAIT_TIMEOUT_MS),
{
    now_ms >= start_ms + COMPLETION_WAIT_TIMEOUT_MS
}

/// Completion-wait uniqueness: `d0` is a state with no wait for the key
/// in flight and `d1` the state right after `begin_service_wait`
/// registered one. The key is then occupied, so the contract of
/// `begin_service_wait` rejects a second wait for it until
/// `resolve_service` or `finish_service_wait` — whose contracts leave
/// the key unregistered — frees it for reuse.
pub proof fn lemma_completion_wait_uniqueness(
    d0: PeripheralDelegate,
    d1: PeripheralDelegate,
    service: Uuid,
)
    requires
        !d0.spec_is_waiting_for_service(service),
        d1.service_wait_keys() == d0.service_wait_keys().push(service.spec_as_u128()),
    ensures
        d1.spec_is_waiting_for_service(service),
{
    assert(d1.service_wait_keys()[d0.service_wait_keys().len() as int]
        == service.spec_as_u128());
}

} // verus!
