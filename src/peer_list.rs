use vstd::prelude::*;

use crate::table::Table;
use crate::types::{Peer, PeerAddr, PeerId, SessionId};

verus! {

/// Why the registry refused to add a tentative peer.
#[derive(Clone, Copy, Debug, PartialEq, Eq, Structural)]
pub enum RegistryError {
    /// The identifier is this node's own.
    SelfPeer,
    /// The identifier is blacklisted.
    Blacklisted,
    /// The identifier is already tentative or stable.
    AlreadyPresent,
    /// A promotion was asked for an identifier that is not tentative.
    NotTentative,
}

/// What the registry holds, as mathematical values.
pub struct PeerListView {
    pub me: PeerId,
    pub black_addrs: Set<PeerAddr>,
    pub black_peers: Set<PeerId>,
    /// Connected peers not yet trusted: their session and their record.
    pub tentative: Map<PeerId, (SessionId, Peer)>,
    /// Trusted peers: their session.
    pub stable: Map<PeerId, SessionId>,
}

impl PeerListView {
    /// An identifier is in at most one of the blacklist, the tentative set and the stable
    /// set, and this node's own identifier is in neither active set.
    pub open spec fn inv(self) -> bool {
        &&& !self.tentative.contains_key(self.me)
        &&& !self.stable.contains_key(self.me)
        &&& forall|id: PeerId|
            !(#[trigger] self.tentative.contains_key(id) && self.stable.contains_key(id))
        &&& forall|id: PeerId|
            #[trigger] self.black_peers.contains(id) ==> !self.tentative.contains_key(id)
                && !self.stable.contains_key(id)
    }

    /// The identifier is tentative or stable.
    pub open spec fn is_active(self, id: PeerId) -> bool {
        self.tentative.contains_key(id) || self.stable.contains_key(id)
    }

    /// The session held for `id`; the stable one is preferred.
    pub open spec fn session_of(self, id: PeerId) -> Option<SessionId> {
        if self.stable.contains_key(id) {
            Some(self.stable[id])
        } else if self.tentative.contains_key(id) {
            Some(self.tentative[id].0)
        } else {
            None
        }
    }

    /// Whether a tentative entry for `id` may be added, and the error if not.
    pub open spec fn insert_check(self, id: PeerId) -> Result<(), RegistryError> {
        if id == self.me {
            Err(RegistryError::SelfPeer)
        } else if self.black_peers.contains(id) {
            Err(RegistryError::Blacklisted)
        } else if self.is_active(id) {
            Err(RegistryError::AlreadyPresent)
        } else {
            Ok(())
        }
    }

    pub open spec fn with_tentative(self, id: PeerId, session: SessionId, peer: Peer) -> Self {
        PeerListView { tentative: self.tentative.insert(id, (session, peer)), ..self }
    }

    /// `id` moved from the tentative set to the stable set, with its session.
    pub open spec fn promoted(self, id: PeerId) -> Self {
        PeerListView {
            tentative: self.tentative.remove(id),
            stable: self.stable.insert(id, self.tentative[id].0),
            ..self
        }
    }

    /// `id` gone from both active sets.
    pub open spec fn removed(self, id: PeerId) -> Self {
        PeerListView { tentative: self.tentative.remove(id), stable: self.stable.remove(id), ..self }
    }

    /// `id` gone from the tentative set.
    pub open spec fn tentative_removed(self, id: PeerId) -> Self {
        PeerListView { tentative: self.tentative.remove(id), ..self }
    }
}

/// The registry of the peers known to this node.
pub struct PeerList {
    me: PeerId,
    black_addrs: Vec<PeerAddr>,
    black_peers: Vec<PeerId>,
    tmps: Table<(SessionId, Peer)>,
    stables: Table<SessionId>,
}

impl View for PeerList {
    type V = PeerListView;

    closed spec fn view(&self) -> PeerListView {
        PeerListView {
            me: self.me,
            black_addrs: Set::new(|a: PeerAddr| self.black_addrs@.contains(a)),
            black_peers: Set::new(|p: PeerId| self.black_peers@.contains(p)),
            tentative: self.tmps@,
            stable: self.stables@,
        }
    }
}

impl PeerList {
    pub closed spec fn wf(&self) -> bool {
        &&& self.tmps.wf()
        &&& self.stables.wf()
        &&& self@.inv()
    }

    /// An empty registry for the node `me`, with the given blacklists.
    pub fn init(me: PeerId, black_addrs: Vec<PeerAddr>, black_peers: Vec<PeerId>) -> (r: PeerList)
        ensures
            r.wf(),
            r@.me == me,
            forall|a: PeerAddr| #[trigger] r@.black_addrs.contains(a) <==> black_addrs@.contains(a),
            forall|p: PeerId| #[trigger] r@.black_peers.contains(p) <==> black_peers@.contains(p),
            r@.tentative == Map::<PeerId, (SessionId, Peer)>::empty(),
            r@.stable == Map::<PeerId, SessionId>::empty(),
    {
        PeerList { me, black_addrs, black_peers, tmps: Table::new(), stables: Table::new() }
    }

    pub fn is_black_addr(&self, addr: &PeerAddr) -> (r: bool)
        ensures
            r == self@.black_addrs.contains(*addr),
    {
        let mut i: usize = 0;
        while i < self.black_addrs.len()
            invariant
                i <= self.black_addrs@.len(),
                forall|j: int| 0 <= j < i ==> self.black_addrs@[j] != *addr,
            decreases self.black_addrs@.len() - i,
        {
            if self.black_addrs[i] == *addr {
                return true;
            }
            i = i + 1;
        }
        false
    }

    pub fn is_black_peer(&self, id: &PeerId) -> (r: bool)
        ensures
            r == self@.black_peers.contains(*id),
    {
        let mut i: usize = 0;
        while i < self.black_peers.len()
            invariant
                i <= self.black_peers@.len(),
                forall|j: int| 0 <= j < i ==> self.black_peers@[j] != *id,
            decreases self.black_peers@.len() - i,
        {
            if self.black_peers[i] == *id {
                proof {
                    PeerId::lemma_bytes_eq(self.black_peers@[i as int], *id);
                }
                return true;
            }
            i = i + 1;
        }
        false
    }

    /// Adds `id` as a tentative peer with its session and record. Refused for this node's
    /// own identifier, a blacklisted one, and one that is already tentative or stable: the
    /// entry registered first is kept.
    pub fn insert_tentative(&mut self, id: PeerId, session: SessionId, peer: Peer) -> (r: Result<
        (),
        RegistryError,
    >)
        requires
            old(self).wf(),
        ensures
            final(self).wf(),
            r == old(self)@.insert_check(id),
            r is Ok ==> final(self)@ == old(self)@.with_tentative(id, session, peer),
            r is Err ==> final(self)@ == old(self)@,
    {
        if id == self.me {
            proof {
                PeerId::lemma_bytes_eq(id, self.me);
            }
            return Err(RegistryError::SelfPeer);
        }
        if self.is_black_peer(&id) {
            return Err(RegistryError::Blacklisted);
        }
        if self.tmps.contains(&id) || self.stables.contains(&id) {
            return Err(RegistryError::AlreadyPresent);
        }
        self.tmps.insert_new(id, (session, peer));
        assert(self@ == old(self)@.with_tentative(id, session, peer));
        Ok(())
    }

    /// Moves `id` from the tentative set to the stable set; refused if it is not tentative.
    pub fn promote(&mut self, id: &PeerId) -> (r: Result<(), RegistryError>)
        requires
            old(self).wf(),
        ensures
            final(self).wf(),
            r is Ok <==> old(self)@.tentative.contains_key(*id),
            r is Err ==> r == Err::<(), RegistryError>(RegistryError::NotTentative) && final(self)@
                == old(self)@,
            r is Ok ==> final(self)@ == old(self)@.promoted(*id),
    {
        match self.tmps.remove(id) {
            None => {
                assert(self.tmps@ =~= old(self).tmps@);
                Err(RegistryError::NotTentative)
            },
            Some(entry) => {
                self.stables.insert_new(*id, entry.0);
                assert(self@ == old(self)@.promoted(*id));
                Ok(())
            },
        }
    }

    /// The session of `id`, if it is tentative or stable.
    pub fn get(&self, id: &PeerId) -> (r: Option<SessionId>)
        requires
            self.wf(),
        ensures
            r == self@.session_of(*id),
    {
        match self.stables.get(id) {
            Some(s) => Some(s),
            None => match self.tmps.get(id) {
                Some(entry) => Some(entry.0),
                None => None,
            },
        }
    }

    /// Forgets `id` in both active sets and returns the session that was held for it;
    /// closing that session is the caller's part. An absent `id` changes nothing.
    pub fn remove(&mut self, id: &PeerId) -> (r: Option<SessionId>)
        requires
            old(self).wf(),
        ensures
            final(self).wf(),
            final(self)@ == old(self)@.removed(*id),
            r == old(self)@.session_of(*id),
    {
        let t = self.tmps.remove(id);
        let s = self.stables.remove(id);
        assert(self@ == old(self)@.removed(*id));
        match s {
            Some(h) => Some(h),
            None => match t {
                Some(entry) => Some(entry.0),
                None => None,
            },
        }
    }

    /// Forgets `id` in the tentative set and returns its session, if it was tentative.
    pub fn remove_tentative(&mut self, id: &PeerId) -> (r: Option<SessionId>)
        requires
            old(self).wf(),
        ensures
            final(self).wf(),
            final(self)@ == old(self)@.tentative_removed(*id),
            r == (if old(self)@.tentative.contains_key(*id) {
                Some(old(self)@.tentative[*id].0)
            } else {
                None
            }),
    {
        let t = self.tmps.remove(id);
        assert(self@ == old(self)@.tentative_removed(*id));
        match t {
            Some(entry) => Some(entry.0),
            None => None,
        }
    }
}

/// In every registry that the operations above can produce, no identifier is both
/// tentative and stable, and this node's own identifier is neither.
pub proof fn lemma_registry_invariant(l: &PeerList)
    requires
        l.wf(),
    ensures
        l@.inv(),
        forall|id: PeerId| !(#[trigger] l@.tentative.contains_key(id) && l@.stable.contains_key(id)),
        !l@.tentative.contains_key(l@.me),
        !l@.stable.contains_key(l@.me),
{
}

/// Removing an identifier twice, from both sets or from the tentative set, ends in the
/// same registry as removing it once, and the second removal finds no session to release.
pub proof fn lemma_remove_idempotent(s: PeerListView, id: PeerId)
    ensures
        s.removed(id).removed(id) == s.removed(id),
        s.removed(id).session_of(id) is None,
        s.tentative_removed(id).tentative_removed(id) == s.tentative_removed(id),
        !s.tentative_removed(id).tentative.contains_key(id),
{
    assert(s.removed(id).removed(id).tentative =~= s.removed(id).tentative);
    assert(s.removed(id).removed(id).stable =~= s.removed(id).stable);
    assert(s.tentative_removed(id).tentative_removed(id).tentative =~= s.tentative_removed(
        id,
    ).tentative);
}

} // verus!
