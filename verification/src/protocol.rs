//! The wire-independent protocol vocabulary: packets exchanged between
//! sessions, and the lifecycle states shared by both roles.

use vstd::prelude::*;

verus! {

/// What one protocol packet carries. Grain payload bytes themselves
/// move through the registered memory regions; the protocol layer only
/// signals which grain and slice range a transfer covers.
#[derive(Clone, Copy, PartialEq, Eq, Structural, Debug)]
pub enum Payload {
    /// An initiator asks a target to accept it as a peer.
    ConnectRequest,
    /// A target confirms a connection request.
    ConnectAccept,
    /// An initiator starts a graceful shutdown towards a target.
    DisconnectRequest,
    /// A target confirms a shutdown request.
    DisconnectAck,
    /// One completed transfer of the given slice range of one grain.
    GrainData { grain_index: u64, start_slice: u16, end_slice: u16 },
}

/// One protocol packet, addressed by session keys. The runtime that
/// carries packets routes each to the session whose key is `dst`.
#[derive(Clone, Copy, PartialEq, Eq, Structural, Debug)]
pub struct Packet {
    /// Key of the sending session.
    pub src: u64,
    /// Key of the receiving session.
    pub dst: u64,
    pub payload: Payload,
}

/// Lifecycle state of a session. A session is created unconfigured,
/// becomes ready through its setup call, and is destroyed exactly once
/// no matter how often destruction is requested.
#[derive(Clone, Copy, PartialEq, Eq, Structural, Debug)]
pub enum SessionState {
    Created,
    Ready,
    Destroyed,
}

/// Connection state of one target attached to an initiator.
#[derive(Clone, Copy, PartialEq, Eq, Structural, Debug)]
pub enum LinkState {
    /// The connection request is queued or in flight.
    Connecting,
    /// The target confirmed the connection; transfers may be queued.
    Connected,
    /// The target was removed; only the shutdown handshake is pending.
    Draining,
}

/// One target attached to an initiator, tracked independently of the
/// others.
#[derive(Clone, Copy, PartialEq, Eq, Structural, Debug)]
pub struct TargetLink {
    /// The target's session key, as published in its descriptor.
    pub key: u64,
    pub state: LinkState,
}

} // verus!
