use chamomile::server::{Action, EndpointMessage, Server, TransportCommand};
use chamomile::types::{
    Broadcast, Peer, PeerAddr, PeerId, ReceiveMessage, SendMessage, StreamMessage, TransportType,
};

fn id(n: u8) -> PeerId {
    PeerId([n; 32])
}

fn addr(port: u16) -> PeerAddr {
    PeerAddr { ip: 0x7f00_0001, port }
}

fn record(n: u8) -> Peer {
    Peer::new(id(n), addr(7000 + n as u16), TransportType::TCP, false)
}

fn server() -> Server {
    let me = Peer::new(id(0), addr(7000), TransportType::TCP, true);
    Server::new(me, vec![addr(6666)], vec![id(9)])
}

fn connected(n: u8, session: u64) -> EndpointMessage {
    EndpointMessage::Connected(id(n), session, record(n), vec![n, 1, 2])
}

fn leave(n: u8) -> Action {
    Action::ToOutside(ReceiveMessage::PeerLeave(id(n)))
}

#[test]
fn self_peer_is_kept() {
    let s = server();
    assert_eq!(s.self_peer().id, id(0));
    assert!(s.self_peer().is_me);
}

#[test]
fn blacklisted_address_closes_raw_stream() {
    let mut s = server();
    let acts = s.handle_endpoint(EndpointMessage::PreConnected(addr(6666), false));
    assert_eq!(acts, vec![Action::CloseStream]);
    for n in 0..10u8 {
        assert_eq!(s.session(&id(n)), None);
    }
}

#[test]
fn other_address_starts_session() {
    let mut s = server();
    let acts = s.handle_endpoint(EndpointMessage::PreConnected(addr(5555), true));
    assert_eq!(acts, vec![Action::StartSession(addr(5555), true)]);
}

#[test]
fn connected_fresh_peer_joins_once() {
    let mut s = server();
    let acts = s.handle_endpoint(connected(1, 11));
    assert_eq!(
        acts,
        vec![Action::ToOutside(ReceiveMessage::PeerJoin(id(1), addr(7001), vec![1, 1, 2]))]
    );
    assert_eq!(s.session(&id(1)), Some(11));
}

#[test]
fn connected_blacklisted_peer_is_closed() {
    let mut s = server();
    let acts = s.handle_endpoint(connected(9, 19));
    assert_eq!(
        acts,
        vec![Action::ToSession(19, StreamMessage::Close), Action::DropSession(19)]
    );
    assert_eq!(s.session(&id(9)), None);
}

#[test]
fn connected_self_is_closed() {
    let mut s = server();
    let acts = s.handle_endpoint(connected(0, 10));
    assert_eq!(
        acts,
        vec![Action::ToSession(10, StreamMessage::Close), Action::DropSession(10)]
    );
    assert_eq!(s.session(&id(0)), None);
}

#[test]
fn duplicate_connected_closes_second_session() {
    let mut s = server();
    let first = s.handle_endpoint(connected(1, 11));
    let second = s.handle_endpoint(connected(1, 12));
    assert_eq!(first.len(), 1);
    assert!(matches!(first[0], Action::ToOutside(ReceiveMessage::PeerJoin(..))));
    assert_eq!(
        second,
        vec![Action::ToSession(12, StreamMessage::Close), Action::DropSession(12)]
    );
    assert_eq!(s.session(&id(1)), Some(11));
}

#[test]
fn approve_join_promotes_and_accepts() {
    let mut s = server();
    s.handle_endpoint(connected(1, 11));
    let acts = s.handle_outside(SendMessage::PeerJoinResult(id(1), true, false, vec![]));
    assert_eq!(acts, vec![Action::ToSession(11, StreamMessage::Accept)]);
    // now stable: an application leave no longer forgets it before its close event
    let acts = s.handle_outside(SendMessage::PeerDisconnect(id(1)));
    assert_eq!(acts, vec![Action::ToSession(11, StreamMessage::Close)]);
    assert_eq!(s.session(&id(1)), Some(11));
}

#[test]
fn reject_join_closes_and_forgets() {
    let mut s = server();
    s.handle_endpoint(connected(1, 11));
    let acts = s.handle_outside(SendMessage::PeerJoinResult(id(1), false, true, vec![4]));
    assert_eq!(
        acts,
        vec![Action::ToSession(11, StreamMessage::Close), Action::DropSession(11)]
    );
    assert_eq!(s.session(&id(1)), None);
}

#[test]
fn join_result_for_unknown_peer_is_dropped() {
    let mut s = server();
    assert!(s.handle_outside(SendMessage::PeerJoinResult(id(3), true, false, vec![])).is_empty());
    assert!(s.handle_outside(SendMessage::PeerJoinResult(id(3), false, false, vec![])).is_empty());
}

#[test]
fn data_to_absent_peer_is_dropped() {
    let mut s = server();
    let acts = s.handle_outside(SendMessage::Data(id(2), vec![1, 2, 3]));
    assert!(acts.is_empty());
    assert_eq!(s.session(&id(2)), None);
}

#[test]
fn data_to_present_peer_is_forwarded() {
    let mut s = server();
    s.handle_endpoint(connected(2, 22));
    let acts = s.handle_outside(SendMessage::Data(id(2), vec![1, 2, 3]));
    assert_eq!(acts, vec![Action::ToSession(22, StreamMessage::Bytes(vec![1, 2, 3]))]);
}

#[test]
fn leave_command_on_tentative_peer() {
    let mut s = server();
    s.handle_endpoint(connected(2, 22));
    let acts = s.handle_outside(SendMessage::PeerDisconnect(id(2)));
    assert_eq!(
        acts,
        vec![Action::ToSession(22, StreamMessage::Close), Action::DropSession(22)]
    );
    assert_eq!(s.session(&id(2)), None);
    assert!(s.handle_outside(SendMessage::PeerDisconnect(id(2))).is_empty());
}

#[test]
fn close_event_removes_and_notifies() {
    let mut s = server();
    s.handle_endpoint(connected(1, 11));
    let acts = s.handle_endpoint(EndpointMessage::Close(id(1)));
    assert_eq!(acts, vec![Action::DropSession(11), leave(1)]);
    assert_eq!(s.session(&id(1)), None);
    // a second close finds nothing to release and sends no second notice
    let acts = s.handle_endpoint(EndpointMessage::Close(id(1)));
    assert!(acts.is_empty());
}

#[test]
fn promote_then_close_removes_peer() {
    let mut s = server();
    s.handle_endpoint(connected(1, 11));
    let a = s.handle_outside(SendMessage::PeerJoinResult(id(1), true, false, vec![]));
    let b = s.handle_endpoint(EndpointMessage::Close(id(1)));
    assert_eq!(a, vec![Action::ToSession(11, StreamMessage::Accept)]);
    assert_eq!(b, vec![Action::DropSession(11), leave(1)]);
    assert_eq!(s.session(&id(1)), None);
}

#[test]
fn close_then_promote_removes_peer() {
    let mut s = server();
    s.handle_endpoint(connected(1, 11));
    let a = s.handle_endpoint(EndpointMessage::Close(id(1)));
    let b = s.handle_outside(SendMessage::PeerJoinResult(id(1), true, false, vec![]));
    assert_eq!(a, vec![Action::DropSession(11), leave(1)]);
    assert!(b.is_empty());
    assert_eq!(s.session(&id(1)), None);
}

#[test]
fn connect_and_disconnect_go_to_transport() {
    let mut s = server();
    let acts = s.handle_outside(SendMessage::Connect(addr(8000), Some(vec![7])));
    assert_eq!(
        acts,
        vec![Action::ToTransport(TransportCommand::Connect(addr(8000), Some(vec![7])))]
    );
    let acts = s.handle_outside(SendMessage::DisConnect(addr(8000)));
    assert_eq!(acts, vec![Action::ToTransport(TransportCommand::Disconnect(addr(8000)))]);
}

#[test]
fn uninterpreted_commands_do_nothing() {
    let mut s = server();
    s.handle_endpoint(connected(1, 11));
    assert!(s.handle_outside(SendMessage::Broadcast(Broadcast::Gossip, vec![1])).is_empty());
    assert!(s.handle_outside(SendMessage::PeerConnect(id(1), Some(addr(1)), vec![])).is_empty());
    assert_eq!(s.session(&id(1)), Some(11));
}

#[test]
fn never_tentative_and_stable_at_once() {
    let mut s = server();
    s.handle_endpoint(connected(1, 11));
    s.handle_outside(SendMessage::PeerJoinResult(id(1), true, false, vec![]));
    // a second session for a stable peer is refused, the stable one kept
    let acts = s.handle_endpoint(connected(1, 12));
    assert_eq!(
        acts,
        vec![Action::ToSession(12, StreamMessage::Close), Action::DropSession(12)]
    );
    let acts = s.handle_endpoint(EndpointMessage::Close(id(1)));
    assert_eq!(acts, vec![Action::DropSession(11), leave(1)]);
    assert_eq!(s.session(&id(1)), None);
}

#[test]
fn close_for_unknown_peer_sends_nothing() {
    let mut s = server();
    assert!(s.handle_endpoint(EndpointMessage::Close(id(4))).is_empty());
}

#[test]
fn reject_twice_is_same_as_once() {
    let mut s = server();
    s.handle_endpoint(connected(1, 11));
    let first = s.handle_outside(SendMessage::PeerJoinResult(id(1), false, false, vec![]));
    assert_eq!(
        first,
        vec![Action::ToSession(11, StreamMessage::Close), Action::DropSession(11)]
    );
    assert!(s.handle_outside(SendMessage::PeerJoinResult(id(1), false, false, vec![])).is_empty());
    assert_eq!(s.session(&id(1)), None);
}
