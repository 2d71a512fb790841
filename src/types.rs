use vstd::prelude::*;

verus! {

/// Identifier of a node: 32 bytes derived from its public key.
#[derive(Clone, Copy, Debug, Eq, Hash)]
pub struct PeerId(pub [u8; 32]);

impl PartialEq for PeerId {
    fn eq(&self, other: &PeerId) -> (r: bool) {
        let mut i: usize = 0;
        while i < 32
            invariant
                i <= 32,
                forall|j: int| 0 <= j < i ==> self.0@[j] == other.0@[j],
            decreases 32 - i,
        {
            if self.0[i] != other.0[i] {
                return false;
            }
            i = i + 1;
        }
        proof {
            assert(self.0@ =~= other.0@);
        }
        true
    }
}

impl vstd::std_specs::cmp::PartialEqSpecImpl for PeerId {
    open spec fn obeys_eq_spec() -> bool {
        true
    }

    open spec fn eq_spec(&self, other: &PeerId) -> bool {
        self.0@ == other.0@
    }
}

impl PeerId {
    /// Two identifiers with the same bytes are the same identifier.
    pub proof fn lemma_bytes_eq(a: PeerId, b: PeerId)
        requires
            a.0@ == b.0@,
        ensures
            a == b,
    {
        assert(a.0 =~= b.0) by {
            assert forall|i: int| 0 <= i < 32 implies a.0[i] == b.0[i] by {
                assert(a.0@[i] == b.0@[i]);
            }
        }
    }
}

/// Network address of a node: an IPv6 address (IPv4 addresses in mapped form) and a port.
#[derive(Clone, Copy, Debug, PartialEq, Eq, Hash, Structural)]
pub struct PeerAddr {
    pub ip: u128,
    pub port: u16,
}

/// The transports a node can listen and connect on.
#[derive(Clone, Copy, Debug, PartialEq, Eq, Hash, Structural)]
pub enum TransportType {
    UDP,
    TCP,
    RTP,
    UDT,
}

/// Description of a node: its identifier, address, transport and whether it is this node.
#[derive(Clone, Copy, Debug, PartialEq, Eq)]
pub struct Peer {
    pub id: PeerId,
    pub addr: PeerAddr,
    pub transport: TransportType,
    pub is_me: bool,
}

impl Peer {
    pub fn new(id: PeerId, addr: PeerAddr, transport: TransportType, is_me: bool) -> (r: Peer)
        ensures
            r == (Peer { id, addr, transport, is_me }),
    {
        Peer { id, addr, transport, is_me }
    }
}

/// Handle of a session task, by which the coordinator addresses messages to it.
pub type SessionId = u64;

/// Handle of a direct stream built between two nodes, held by the transport layer.
#[derive(Clone, Copy, Debug, PartialEq, Eq, Hash, Structural)]
pub struct TransportStream {
    pub id: u64,
}

/// Routing algorithms that a broadcast can ask for.
#[derive(Clone, Copy, Debug, PartialEq, Eq, Hash, Structural)]
pub enum Broadcast {
    Gossip,
    StructAsync,
    StructSync,
}

/// Custom apply for build a stream between nodes.
#[derive(Debug, Clone, Eq, PartialEq)]
pub enum StreamType {
    /// request for build a stream, params is peer id, transport type and request custom info.
    Req(PeerId, TransportType, Vec<u8>),
    /// response for build a stream, params is is_ok, and response custom info.
    Res(bool, Vec<u8>),
    /// if response is ok, will build a stream, and return the stream to outside.
    Established(TransportStream),
}

/// Messages from this node to the outside application.
#[derive(Debug, Clone, Eq, PartialEq)]
pub enum ReceiveMessage {
    /// A peer joined: `peer_id`, its address and its join info.
    PeerJoin(PeerId, PeerAddr, Vec<u8>),
    /// The answer to this node's join request: `peer_id`, `is_ok` and result data.
    PeerJoinResult(PeerId, bool, Vec<u8>),
    /// A connected peer left.
    PeerLeave(PeerId),
    /// Data received from a trusted peer: `peer_id` and the bytes.
    Data(PeerId, Vec<u8>),
    /// Apply for build a stream between nodes: stream symbol and `StreamType`.
    Stream(u32, StreamType),
}

/// Commands from the outside application to this node.
#[derive(Debug, Clone, Eq, PartialEq)]
pub enum SendMessage {
    /// The application's decision on a joining peer: `peer_id`, `is_connect`,
    /// `is_force_close` and result info.
    PeerJoinResult(PeerId, bool, bool, Vec<u8>),
    /// Ask for a stable connection to a peer: `peer_id`, its address if known, join info.
    PeerConnect(PeerId, Option<PeerAddr>, Vec<u8>),
    /// Force a connected peer out.
    PeerDisconnect(PeerId),
    /// Connect to an address, with optional join info.
    Connect(PeerAddr, Option<Vec<u8>>),
    /// Close the connection to an address.
    DisConnect(PeerAddr),
    /// Send bytes to a peer.
    Data(PeerId, Vec<u8>),
    /// Broadcast bytes to the network with the given algorithm.
    Broadcast(Broadcast, Vec<u8>),
    /// Apply for build a stream between nodes: stream symbol and `StreamType`.
    Stream(u32, StreamType),
}

/// Messages from the coordinator to one session.
#[derive(Debug, Clone, Eq, PartialEq)]
pub enum StreamMessage {
    /// The peer was accepted.
    Accept,
    /// Close the connection.
    Close,
    /// Bytes to write to the peer.
    Bytes(Vec<u8>),
}

} // verus!
