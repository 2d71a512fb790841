use vstd::prelude::*;

use crate::peer_list::{lemma_registry_invariant, PeerList, PeerListView};
use crate::types::{
    Peer, PeerAddr, PeerId, ReceiveMessage, SendMessage, SessionId, StreamMessage,
};

verus! {

/// Events that the transport layer and the sessions report to the coordinator.
#[derive(Debug, Clone, PartialEq, Eq)]
pub enum EndpointMessage {
    /// A raw stream with the remote address, before its identity is known; the flag says
    /// whether this node initiated the connection.
    PreConnected(PeerAddr, bool),
    /// A session learned the remote identity: its id, the session handle, the remote's
    /// record and the join info it sent.
    Connected(PeerId, SessionId, Peer, Vec<u8>),
    /// A session ended.
    Close(PeerId),
}

/// Instructions from the coordinator to the transport layer.
#[derive(Debug, Clone, PartialEq, Eq)]
pub enum TransportCommand {
    /// Connect to an address with optional join info; this node's signed identity is
    /// attached where the instruction is carried out.
    Connect(PeerAddr, Option<Vec<u8>>),
    /// Close the connection to an address.
    Disconnect(PeerAddr),
}

/// What the coordinator asks its surroundings to do, in order.
#[derive(Debug, Clone, PartialEq, Eq)]
pub enum Action {
    /// Close the raw stream of the event being handled.
    CloseStream,
    /// Hand the raw stream of the event being handled to a new session.
    StartSession(PeerAddr, bool),
    /// Send a message to a session.
    ToSession(SessionId, StreamMessage),
    /// Drop the handle of a session that the coordinator no longer holds.
    DropSession(SessionId),
    /// Send a notice to the outside application.
    ToOutside(ReceiveMessage),
    /// Send an instruction to the transport layer.
    ToTransport(TransportCommand),
}

/// Close a session that is not registered: tell it to close, then drop its handle.
pub open spec fn refuse_session(session: SessionId) -> Seq<Action> {
    seq![Action::ToSession(session, StreamMessage::Close), Action::DropSession(session)]
}

/// Registry and actions after a transport event. A close event for a peer that is not
/// registered (already removed, or refused) changes nothing and sends no notice.
pub open spec fn endpoint_step(s: PeerListView, msg: EndpointMessage) -> (PeerListView, Seq<Action>) {
    match msg {
        EndpointMessage::PreConnected(addr, initiated) => {
            if s.black_addrs.contains(addr) {
                (s, seq![Action::CloseStream])
            } else {
                (s, seq![Action::StartSession(addr, initiated)])
            }
        },
        EndpointMessage::Connected(id, session, remote, info) => {
            if s.insert_check(id) is Ok {
                (
                    s.with_tentative(id, session, remote),
                    seq![Action::ToOutside(ReceiveMessage::PeerJoin(id, remote.addr, info))],
                )
            } else {
                (s, refuse_session(session))
            }
        },
        EndpointMessage::Close(id) => match s.session_of(id) {
            Some(h) => (
                s.removed(id),
                seq![Action::DropSession(h), Action::ToOutside(ReceiveMessage::PeerLeave(id))],
            ),
            None => (s.removed(id), seq![]),
        },
    }
}

/// Registry and actions when the application closes the session of `id`: the session is
/// told to close, and a tentative entry is forgotten at once (a stable one on its close
/// event).
pub open spec fn close_step(s: PeerListView, id: PeerId) -> (PeerListView, Seq<Action>) {
    match s.session_of(id) {
        None => (s, seq![]),
        Some(h) => if s.tentative.contains_key(id) {
            (s.tentative_removed(id), refuse_session(h))
        } else {
            (s, seq![Action::ToSession(h, StreamMessage::Close)])
        },
    }
}

/// Registry and actions after a command of the outside application.
pub open spec fn outside_step(s: PeerListView, msg: SendMessage) -> (PeerListView, Seq<Action>) {
    match msg {
        SendMessage::Connect(addr, info) => (
            s,
            seq![Action::ToTransport(TransportCommand::Connect(addr, info))],
        ),
        SendMessage::DisConnect(addr) => (
            s,
            seq![Action::ToTransport(TransportCommand::Disconnect(addr))],
        ),
        SendMessage::PeerJoinResult(id, is_ok, _force, _info) => {
            if is_ok {
                match s.session_of(id) {
                    None => (s, seq![]),
                    Some(h) => (
                        if s.tentative.contains_key(id) {
                            s.promoted(id)
                        } else {
                            s
                        },
                        seq![Action::ToSession(h, StreamMessage::Accept)],
                    ),
                }
            } else {
                close_step(s, id)
            }
        },
        SendMessage::Data(id, data) => match s.session_of(id) {
            None => (s, seq![]),
            Some(h) => (s, seq![Action::ToSession(h, StreamMessage::Bytes(data))]),
        },
        SendMessage::PeerDisconnect(id) => close_step(s, id),
        _ => (s, seq![]),
    }
}

/// The peer network coordinator: this node's record and the registry it alone changes.
pub struct Server {
    peer: Peer,
    peer_list: PeerList,
}

impl View for Server {
    type V = PeerListView;

    closed spec fn view(&self) -> PeerListView {
        self.peer_list@
    }
}

impl Server {
    pub closed spec fn wf(&self) -> bool {
        &&& self.peer_list.wf()
        &&& self.peer_list@.me == self.peer.id
    }

    /// A coordinator for the node `peer`, with an empty registry and the given blacklists.
    pub fn new(peer: Peer, black_addrs: Vec<PeerAddr>, black_peers: Vec<PeerId>) -> (r: Server)
        ensures
            r.wf(),
            r@.inv(),
            r.peer() == peer,
            r@.me == peer.id,
            forall|a: PeerAddr| #[trigger] r@.black_addrs.contains(a) <==> black_addrs@.contains(a),
            forall|p: PeerId| #[trigger] r@.black_peers.contains(p) <==> black_peers@.contains(p),
            r@.tentative == Map::<PeerId, (SessionId, Peer)>::empty(),
            r@.stable == Map::<PeerId, SessionId>::empty(),
    {
        let peer_list = PeerList::init(peer.id, black_addrs, black_peers);
        proof {
            lemma_registry_invariant(&peer_list);
        }
        Server { peer, peer_list }
    }

    pub closed spec fn peer(&self) -> Peer {
        self.peer
    }

    /// This node's record.
    pub fn self_peer(&self) -> (r: Peer)
        ensures
            r == self.peer(),
    {
        self.peer
    }

    /// The session held for `id`, if it is tentative or stable.
    pub fn session(&self, id: &PeerId) -> (r: Option<SessionId>)
        requires
            self.wf(),
        ensures
            r == self@.session_of(*id),
    {
        self.peer_list.get(id)
    }

    /// Closes the session of `id` on the application's behalf.
    fn close_peer(&mut self, id: &PeerId) -> (r: Vec<Action>)
        requires
            old(self).wf(),
        ensures
            final(self).wf(),
            final(self).peer() == old(self).peer(),
            (final(self)@, r@) == close_step(old(self)@, *id),
    {
        let mut acts: Vec<Action> = Vec::new();
        match self.peer_list.get(id) {
            None => {},
            Some(h) => {
                acts.push(Action::ToSession(h, StreamMessage::Close));
                let t = self.peer_list.remove_tentative(id);
                if t.is_some() {
                    acts.push(Action::DropSession(h));
                    assert(acts@ =~= refuse_session(h));
                } else {
                    assert(self@ == old(self)@) by {
                        assert(self@.tentative =~= old(self)@.tentative);
                    }
                    assert(acts@ =~= seq![Action::ToSession(h, StreamMessage::Close)]);
                }
            },
        }
        acts
    }

    /// Handles one event of the transport layer or of a session.
    pub fn handle_endpoint(&mut self, msg: EndpointMessage) -> (r: Vec<Action>)
        requires
            old(self).wf(),
        ensures
            final(self).wf(),
            final(self)@.inv(),
            final(self).peer() == old(self).peer(),
            (final(self)@, r@) == endpoint_step(old(self)@, msg),
    {
        let ghost m = msg;
        let mut acts: Vec<Action> = Vec::new();
        match msg {
            EndpointMessage::PreConnected(addr, initiated) => {
                if self.peer_list.is_black_addr(&addr) {
                    acts.push(Action::CloseStream);
                } else {
                    acts.push(Action::StartSession(addr, initiated));
                }
                assert(acts@ =~= endpoint_step(old(self)@, m).1);
            },
            EndpointMessage::Connected(id, session, remote, info) => {
                let joined = if self.peer_list.is_black_peer(&id) {
                    false
                } else {
                    self.peer_list.insert_tentative(id, session, remote).is_ok()
                };
                if joined {
                    acts.push(Action::ToOutside(ReceiveMessage::PeerJoin(id, remote.addr, info)));
                } else {
                    acts.push(Action::ToSession(session, StreamMessage::Close));
                    acts.push(Action::DropSession(session));
                }
                assert(acts@ =~= endpoint_step(old(self)@, m).1);
            },
            EndpointMessage::Close(id) => {
                let held = self.peer_list.remove(&id);
                if let Some(h) = held {
                    acts.push(Action::DropSession(h));
                    acts.push(Action::ToOutside(ReceiveMessage::PeerLeave(id)));
                }
                assert(acts@ =~= endpoint_step(old(self)@, m).1);
            },
        }
        proof {
            lemma_registry_invariant(&self.peer_list);
        }
        acts
    }

    /// Handles one command of the outside application.
    pub fn handle_outside(&mut self, msg: SendMessage) -> (r: Vec<Action>)
        requires
            old(self).wf(),
        ensures
            final(self).wf(),
            final(self)@.inv(),
            final(self).peer() == old(self).peer(),
            (final(self)@, r@) == outside_step(old(self)@, msg),
    {
        let ghost m = msg;
        let mut acts: Vec<Action> = Vec::new();
        match msg {
            SendMessage::Connect(addr, info) => {
                acts.push(Action::ToTransport(TransportCommand::Connect(addr, info)));
                assert(acts@ =~= outside_step(old(self)@, m).1);
            },
            SendMessage::DisConnect(addr) => {
                acts.push(Action::ToTransport(TransportCommand::Disconnect(addr)));
                assert(acts@ =~= outside_step(old(self)@, m).1);
            },
            SendMessage::PeerJoinResult(id, is_ok, _force, _info) => {
                if is_ok {
                    if let Some(h) = self.peer_list.get(&id) {
                        acts.push(Action::ToSession(h, StreamMessage::Accept));
                        let _ = self.peer_list.promote(&id);
                    }
                    assert(acts@ =~= outside_step(old(self)@, m).1);
                } else {
                    acts = self.close_peer(&id);
                }
            },
            SendMessage::Data(id, data) => {
                if let Some(h) = self.peer_list.get(&id) {
                    acts.push(Action::ToSession(h, StreamMessage::Bytes(data)));
                }
                assert(acts@ =~= outside_step(old(self)@, m).1);
            },
            SendMessage::PeerDisconnect(id) => {
                acts = self.close_peer(&id);
            },
            _ => {
                assert(acts@ =~= outside_step(old(self)@, m).1);
            },
        }
        proof {
            lemma_registry_invariant(&self.peer_list);
        }
        acts
    }
}

/// A well-formed coordinator's registry has no identifier both tentative and stable,
/// none blacklisted and active, and never this node's own.
pub proof fn lemma_server_inv(s: &Server)
    requires
        s.wf(),
    ensures
        s@.inv(),
        s@.me == s.peer().id,
{
    lemma_registry_invariant(&s.peer_list);
}

/// Handling a close event twice for the same peer ends in the registry of handling it
/// once; the second one releases no session and sends no notice. Likewise, rejecting or
/// forcing out a tentative peer twice: the second command does nothing.
pub proof fn lemma_repeat_is_noop(s: PeerListView, id: PeerId)
    requires
        s.inv(),
    ensures
        ({
            let once = endpoint_step(s, EndpointMessage::Close(id));
            endpoint_step(once.0, EndpointMessage::Close(id)) == (once.0, Seq::<Action>::empty())
        }),
        s.tentative.contains_key(id) ==> ({
            let once = close_step(s, id);
            &&& close_step(once.0, id) == (once.0, Seq::<Action>::empty())
            &&& once.1 == refuse_session(s.tentative[id].0)
        }),
{
    let r = s.removed(id);
    assert(r.removed(id).tentative =~= r.tentative);
    assert(r.removed(id).stable =~= r.stable);
}

/// Approving a tentative peer moves it to the stable set with the same session and sends
/// the acceptance on that session, and nothing else.
pub proof fn lemma_approve_promotes(
    s: PeerListView,
    id: PeerId,
    force_keep: bool,
    info: Vec<u8>,
)
    requires
        s.inv(),
        s.tentative.contains_key(id),
    ensures
        ({
            let r = outside_step(s, SendMessage::PeerJoinResult(id, true, force_keep, info));
            &&& r.0.tentative == s.tentative.remove(id)
            &&& r.0.stable == s.stable.insert(id, s.tentative[id].0)
            &&& r.0.me == s.me
            &&& r.0.black_addrs == s.black_addrs
            &&& r.0.black_peers == s.black_peers
            &&& r.1 == seq![Action::ToSession(s.tentative[id].0, StreamMessage::Accept)]
        }),
{
}

/// Every transport event and every application command keeps the registry invariant: no
/// identifier both tentative and stable, none blacklisted and active, never this node's own.
pub proof fn lemma_steps_keep_invariant(s: PeerListView, ev: EndpointMessage, cmd: SendMessage)
    requires
        s.inv(),
    ensures
        endpoint_step(s, ev).0.inv(),
        outside_step(s, cmd).0.inv(),
{
}

/// An approval and a close event for the same tentative peer, handled in either order,
/// leave the peer in neither active set and the registry the same. Approval first sends
/// the acceptance and then one leave notice; close first sends the one leave notice and
/// the late approval finds nothing to promote and sends nothing.
pub proof fn lemma_promote_close_converge(
    s: PeerListView,
    id: PeerId,
    force_keep: bool,
    info: Vec<u8>,
)
    requires
        s.inv(),
        s.tentative.contains_key(id),
    ensures
        ({
            let h = s.tentative[id].0;
            let approve = SendMessage::PeerJoinResult(id, true, force_keep, info);
            let close = EndpointMessage::Close(id);
            let leave = Action::ToOutside(ReceiveMessage::PeerLeave(id));
            let promoted = outside_step(s, approve);
            let then_closed = endpoint_step(promoted.0, close);
            let closed = endpoint_step(s, close);
            let then_promoted = outside_step(closed.0, approve);
            &&& promoted.1 == seq![Action::ToSession(h, StreamMessage::Accept)]
            &&& then_closed.1 == seq![Action::DropSession(h), leave]
            &&& closed.1 == seq![Action::DropSession(h), leave]
            &&& then_promoted.1 == Seq::<Action>::empty()
            &&& !then_closed.0.is_active(id)
            &&& !then_promoted.0.is_active(id)
            &&& then_closed.0 == then_promoted.0
        }),
{
    let h = s.tentative[id].0;
    let p = s.promoted(id);
    assert(p.removed(id).tentative =~= s.removed(id).tentative);
    assert(p.removed(id).stable =~= s.removed(id).stable);
}

} // verus!
