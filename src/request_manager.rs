use vstd::prelude::*;

use crate::peer::PeerAddr;

verus! {

#[verifier::external_type_specification]
#[verifier::external_body]
#[verifier::reject_recursive_types(T)]
pub struct ExOneshotSender<T>(tokio::sync::oneshot::Sender<T>);

/// Relies on tokio's `oneshot::Sender::send`: it consumes the sender and, when
/// the receiver is already gone, hands the value back unchanged.
pub assume_specification<T>[ tokio::sync::oneshot::Sender::<T>::send ](
    s: tokio::sync::oneshot::Sender<T>,
    t: T,
) -> (r: Result<(), T>)
    ensures
        r matches Err(v) ==> v == t,
;

/// The table of pending probes: at most one completion signal per peer address.
///
/// Entries are held in insertion order in a vector whose keys are unique; the
/// table's meaning is the map from address to signal.
pub struct RequestManager<S> {
    entries: Vec<(PeerAddr, S)>,
    map: Ghost<Map<PeerAddr, S>>,
}

impl<S> View for RequestManager<S> {
    type V = Map<PeerAddr, S>;

    closed spec fn view(&self) -> Map<PeerAddr, S> {
        self.map@
    }
}

impl<S> RequestManager<S> {
    /// The vector and the map agree, and no address occurs twice.
    pub closed spec fn wf(&self) -> bool {
        &&& forall|i: int| 0 <= i < self.entries@.len() ==> {
            &&& #[trigger] self.map@.contains_key(self.entries@[i].0)
            &&& self.map@[self.entries@[i].0] == self.entries@[i].1
        }
        &&& forall|k: PeerAddr| #[trigger] self.map@.contains_key(k) ==>
            exists|i: int| 0 <= i < self.entries@.len() && self.entries@[i].0 == k
        &&& forall|i: int, j: int|
            0 <= i < self.entries@.len() && 0 <= j < self.entries@.len()
                && #[trigger] self.entries@[i].0 == #[trigger] self.entries@[j].0 ==> i == j
    }

    pub fn new() -> (r: Self)
        ensures
            r.wf(),
            r@ == Map::<PeerAddr, S>::empty(),
    {
        RequestManager { entries: Vec::new(), map: Ghost(Map::empty()) }
    }

    /// The position of `addr` in the vector, if it is there.
    fn find(&self, addr: &PeerAddr) -> (r: Option<usize>)
        requires
            self.wf(),
        ensures
            match r {
                Some(i) => i < self.entries@.len() && self.entries@[i as int].0 == *addr,
                None => !self@.contains_key(*addr),
            },
    {
        let mut i: usize = 0;
        while i < self.entries.len()
            invariant
                i <= self.entries@.len(),
                forall|j: int| 0 <= j < i ==> self.entries@[j].0 != *addr,
            decreases self.entries@.len() - i,
        {
            if self.entries[i].0 == *addr {
                return Some(i);
            }
            i = i + 1;
        }
        None
    }

    /// Removes the entry for `addr` and returns its signal, if there is one.
    pub fn take(&mut self, addr: &PeerAddr) -> (r: Option<S>)
        requires
            old(self).wf(),
        ensures
            final(self).wf(),
            final(self)@ == old(self)@.remove(*addr),
            r == (if old(self)@.contains_key(*addr) {
                Some(old(self)@[*addr])
            } else {
                None::<S>
            }),
    {
        match self.find(addr) {
            None => {
                assert(self.map@.remove(*addr) =~= self.map@);
                None
            },
            Some(i) => {
                let ghost old_entries = self.entries@;
                let ghost old_map = self.map@;
                let e = self.entries.remove(i);
                self.map = Ghost(old_map.remove(*addr));
                assert(old_entries[i as int] == e);
                assert forall|j: int| 0 <= j < self.entries@.len() implies {
                    &&& #[trigger] self.map@.contains_key(self.entries@[j].0)
                    &&& self.map@[self.entries@[j].0] == self.entries@[j].1
                } by {
                    let oj = if j < i { j } else { j + 1 };
                    assert(self.entries@[j] == old_entries[oj]);
                    assert(old_entries[oj].0 != old_entries[i as int].0);
                    assert(old_map.contains_key(old_entries[oj].0));
                }
                assert forall|k: PeerAddr| #[trigger] self.map@.contains_key(k) implies
                    exists|j: int| 0 <= j < self.entries@.len() && self.entries@[j].0 == k by {
                    let oj = choose|oj: int| 0 <= oj < old_entries.len() && old_entries[oj].0 == k;
                    assert(oj != i);
                    let j = if oj < i { oj } else { oj - 1 };
                    assert(self.entries@[j] == old_entries[oj]);
                }
                assert forall|a: int, b: int|
                    0 <= a < self.entries@.len() && 0 <= b < self.entries@.len()
                        && #[trigger] self.entries@[a].0 == #[trigger] self.entries@[b].0 implies a == b by {
                    let oa = if a < i { a } else { a + 1 };
                    let ob = if b < i { b } else { b + 1 };
                    assert(self.entries@[a] == old_entries[oa]);
                    assert(self.entries@[b] == old_entries[ob]);
                }
                Some(e.1)
            },
        }
    }

    /// Adds `signal` under `addr`, replacing the signal that was there; the
    /// replaced signal is dropped without being resolved.
    pub fn register(&mut self, addr: PeerAddr, signal: S)
        requires
            old(self).wf(),
        ensures
            final(self).wf(),
            final(self)@ == old(self)@.insert(addr, signal),
    {
        let _replaced = self.take(&addr);
        let ghost old_entries = self.entries@;
        let ghost old_map = self.map@;
        self.entries.push((addr, signal));
        self.map = Ghost(old_map.insert(addr, signal));
        assert(!old_map.contains_key(addr));
        assert(self.entries@[old_entries.len() as int] == (addr, signal));
        assert forall|j: int| 0 <= j < self.entries@.len() implies {
            &&& #[trigger] self.map@.contains_key(self.entries@[j].0)
            &&& self.map@[self.entries@[j].0] == self.entries@[j].1
        } by {
            if j < old_entries.len() {
                assert(self.entries@[j] == old_entries[j]);
                assert(old_map.contains_key(old_entries[j].0));
            }
        }
        assert forall|k: PeerAddr| #[trigger] self.map@.contains_key(k) implies
            exists|j: int| 0 <= j < self.entries@.len() && self.entries@[j].0 == k by {
            if k != addr {
                let oj = choose|oj: int| 0 <= oj < old_entries.len() && old_entries[oj].0 == k;
                assert(self.entries@[oj] == old_entries[oj]);
            } else {
                assert(self.entries@[old_entries.len() as int].0 == k);
            }
        }
        assert forall|a: int, b: int|
            0 <= a < self.entries@.len() && 0 <= b < self.entries@.len()
                && #[trigger] self.entries@[a].0 == #[trigger] self.entries@[b].0 implies a == b by {
            if a < old_entries.len() {
                assert(self.entries@[a] == old_entries[a]);
                assert(old_map.contains_key(old_entries[a].0));
            }
            if b < old_entries.len() {
                assert(self.entries@[b] == old_entries[b]);
                assert(old_map.contains_key(old_entries[b].0));
            }
        }
    }

    /// Removes the entry for `addr`, if there is one.
    pub fn unregister(&mut self, addr: &PeerAddr)
        requires
            old(self).wf(),
        ensures
            final(self).wf(),
            final(self)@ == old(self)@.remove(*addr),
    {
        let _dropped = self.take(addr);
    }

    /// Whether no probe is pending.
    pub fn is_empty(&self) -> (r: bool)
        requires
            self.wf(),
        ensures
            r == (self@ == Map::<PeerAddr, S>::empty()),
    {
        if self.entries.len() == 0 {
            assert(self@ =~= Map::<PeerAddr, S>::empty());
            true
        } else {
            assert(self@.contains_key(self.entries@[0].0));
            assert(!Map::<PeerAddr, S>::empty().contains_key(self.entries@[0].0));
            false
        }
    }
}

impl RequestManager<tokio::sync::oneshot::Sender<bool>> {
    /// Removes the entry for `addr` and resolves its signal with `matched`.
    /// Returns whether there was such an entry; without one nothing happens.
    pub fn notify(&mut self, addr: PeerAddr, matched: bool) -> (r: bool)
        requires
            old(self).wf(),
        ensures
            final(self).wf(),
            final(self)@ == old(self)@.remove(addr),
            r == old(self)@.contains_key(addr),
    {
        match self.take(&addr) {
            Some(tx) => {
                let _ = tx.send(matched);
                true
            },
            None => false,
        }
    }
}

/// A signal registered under an address is the one that the next `take` (and
/// so `notify`) of that address hands out, after which the address has no
/// entry; a signal registered afterwards under the same address stays pending
/// there, untouched, until the address is taken or unregistered again.
pub proof fn lemma_notify_resolves_latest<S>(m: Map<PeerAddr, S>, a: PeerAddr, s1: S, s2: S)
    ensures
        m.insert(a, s1).contains_key(a),
        m.insert(a, s1)[a] == s1,
        !m.insert(a, s1).remove(a).contains_key(a),
        m.insert(a, s1).remove(a).insert(a, s2).contains_key(a),
        m.insert(a, s1).remove(a).insert(a, s2)[a] == s2,
{
}

/// Registering a second signal under an address before the first was taken
/// or unregistered orphans the first: no entry of the table holds it any
/// more, so no `notify` can resolve it.
pub proof fn lemma_register_orphans_earlier<S>(m: Map<PeerAddr, S>, a: PeerAddr, s1: S, s2: S)
    requires
        s1 != s2,
        forall|k: PeerAddr| #[trigger] m.contains_key(k) ==> m[k] != s1,
    ensures
        m.insert(a, s1).insert(a, s2)[a] == s2,
        forall|k: PeerAddr| #[trigger] m.insert(a, s1).insert(a, s2).contains_key(k) ==> m.insert(
            a,
            s1,
        ).insert(a, s2)[k] != s1,
{
}

} // verus!
