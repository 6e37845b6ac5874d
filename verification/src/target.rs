//! The target role: the receiving side of a transfer session.

use vstd::prelude::*;

use crate::endpoint::SessionConfig;
use crate::endpoint::SessionConfigView;
use crate::error::Error;
use crate::protocol::Packet;
use crate::protocol::Payload;
use crate::protocol::SessionState;
use crate::target_info::TargetInfo;
use crate::target_info::TargetInfoView;

verus! {

/// What a successful poll of a target returns: the grain whose
/// transfer completed, and the last slice of the transferred range.
/// The caller hands both to its flow buffer to open and commit the
/// received range; committing is the flow buffer's responsibility, not
/// this crate's.
#[derive(Clone, Copy, PartialEq, Eq, Structural, Debug)]
pub struct GrainReadResult {
    pub grain_index: u64,
    pub slice_index: u16,
}

/// The abstract value of an optional session configuration.
pub open spec fn opt_config_view(o: Option<SessionConfig>) -> Option<SessionConfigView> {
    match o {
        Some(c) => Some(c@),
        None => None,
    }
}

/// The abstract state of a [`GrainTarget`].
pub struct TargetView {
    /// The session's routing key, as published in its descriptor.
    pub key: u64,
    pub state: SessionState,
    pub cancelled: bool,
    /// The configuration consumed by setup, once configured.
    pub config: Option<SessionConfigView>,
    /// The keys of the initiators this target has accepted.
    pub peers: Seq<u64>,
    /// Packets delivered by the runtime and not yet processed.
    pub inbox: Seq<Packet>,
    /// Packets this session has produced for the runtime to carry.
    pub outbox: Seq<Packet>,
}

/// Removes one occurrence of `k` from `peers`, if present.
pub open spec fn remove_peer(peers: Seq<u64>, k: u64) -> Seq<u64> {
    if peers.contains(k) {
        peers.remove(choose|i: int| 0 <= i < peers.len() && peers[i] == k)
    } else {
        peers
    }
}

impl TargetView {
    /// Internal consistency: peers are distinct, queued packets are
    /// addressed to this session, and the lifecycle state bounds what
    /// the session may hold.
    pub open spec fn wf(self) -> bool {
        &&& (forall|i: int, j: int|
            0 <= i < j < self.peers.len() ==> self.peers[i] != self.peers[j])
        &&& (forall|i: int| 0 <= i < self.inbox.len() ==> self.inbox[i].dst == self.key)
        &&& (self.state == SessionState::Created ==> self.peers.len() == 0 && self.inbox.len()
            == 0 && self.outbox.len() == 0 && self.config is None)
        &&& (self.state == SessionState::Ready ==> self.config is Some)
        &&& (self.state == SessionState::Destroyed ==> self.peers.len() == 0 && self.inbox.len()
            == 0 && self.outbox.len() == 0)
    }

    /// The state after releasing the session's connection context.
    pub open spec fn destroyed(self) -> TargetView {
        TargetView {
            state: SessionState::Destroyed,
            peers: Seq::empty(),
            inbox: Seq::empty(),
            outbox: Seq::empty(),
            ..self
        }
    }

    /// How one inbound packet advances the session: the state after
    /// the packet, and the completed transfer it reports, if any.
    ///
    /// A connection request adds the peer (once) and queues an accept;
    /// a disconnect request drops the peer and queues an
    /// acknowledgement; grain data from an accepted peer is the
    /// completed transfer the caller polls for; anything else is
    /// dropped.
    pub open spec fn step(self, p: Packet) -> (TargetView, Option<GrainReadResult>) {
        match p.payload {
            Payload::ConnectRequest => (
                TargetView {
                    peers: if self.peers.contains(p.src) {
                        self.peers
                    } else {
                        self.peers.push(p.src)
                    },
                    outbox: self.outbox.push(
                        Packet { src: self.key, dst: p.src, payload: Payload::ConnectAccept },
                    ),
                    ..self
                },
                None,
            ),
            Payload::DisconnectRequest => (
                TargetView {
                    peers: remove_peer(self.peers, p.src),
                    outbox: self.outbox.push(
                        Packet { src: self.key, dst: p.src, payload: Payload::DisconnectAck },
                    ),
                    ..self
                },
                None,
            ),
            Payload::GrainData { grain_index, start_slice, end_slice } => if self.peers.contains(
                p.src,
            ) {
                (self, Some(GrainReadResult { grain_index, slice_index: end_slice }))
            } else {
                (self, None)
            },
            _ => (self, None),
        }
    }
}

/// The descriptor a target publishes for the given key and
/// configuration.
pub open spec fn descriptor_of(key: u64, c: SessionConfigView) -> TargetInfoView {
    TargetInfoView {
        key,
        provider: c.provider,
        node: c.endpoint.node,
        service: c.endpoint.service,
        regions: c.regions.spans,
    }
}

/// Double `destroy` is a no-op: releasing an already released session
/// changes nothing.
pub proof fn lemma_target_destroy_idempotent(v: TargetView)
    ensures
        v.destroyed().destroyed() == v.destroyed(),
{
}

/// Whether `v` holds `k`.
pub(crate) fn contains_u64(v: &Vec<u64>, k: u64) -> (r: bool)
    ensures
        r == v@.contains(k),
{
    let mut i: usize = 0;
    while i < v.len()
        invariant
            i <= v@.len(),
            forall|j: int| 0 <= j < i ==> v@[j] != k,
        decreases v@.len() - i,
    {
        if v[i] == k {
            return true;
        }
        i += 1;
    }
    false
}

/// The position of `k` in `v`, if present.
pub(crate) fn find_u64(v: &Vec<u64>, k: u64) -> (r: Option<usize>)
    ensures
        match r {
            Some(i) => i < v@.len() && v@[i as int] == k,
            None => !v@.contains(k),
        },
{
    let mut i: usize = 0;
    while i < v.len()
        invariant
            i <= v@.len(),
            forall|j: int| 0 <= j < i ==> v@[j] != k,
        decreases v@.len() - i,
    {
        if v[i] == k {
            return Some(i);
        }
        i += 1;
    }
    None
}

/// Copies an optional owned text.
pub(crate) fn clone_opt_string(o: &Option<String>) -> (r: Option<String>)
    ensures
        (match r {
            Some(t) => o matches Some(u) && t@ == u@,
            None => o is None,
        }),
{
    match o {
        Some(t) => Some(t.clone()),
        None => None,
    }
}

/// An unspecialised target session: a connection context bound to a
/// key but not yet committed to a transfer discipline. Specialising it
/// fixes the grain-transfer role for the session's whole lifetime.
pub struct UnspecTarget {
    key: u64,
}

impl View for UnspecTarget {
    type V = u64;

    closed spec fn view(&self) -> u64 {
        self.key
    }
}

impl UnspecTarget {
    pub(crate) fn with_key(key: u64) -> (r: UnspecTarget)
        ensures
            r@ == key,
    {
        UnspecTarget { key }
    }

    /// Specialises this session to receive grains.
    pub fn into_grain_target(self) -> (r: GrainTarget)
        ensures
            r@ == (TargetView {
                key: self@,
                state: SessionState::Created,
                cancelled: false,
                config: None,
                peers: Seq::empty(),
                inbox: Seq::empty(),
                outbox: Seq::empty(),
            }),
            r@.wf(),
    {
        GrainTarget {
            key: self.key,
            state: SessionState::Created,
            cancelled: false,
            config: None,
            peers: Vec::new(),
            inbox: Vec::new(),
            outbox: Vec::new(),
        }
    }
}

/// A grain-based target session: it accepts initiators and exposes
/// their completed grain transfers to the local consumer. All work
/// advances only inside explicit calls; nothing runs in the
/// background.
pub struct GrainTarget {
    key: u64,
    state: SessionState,
    cancelled: bool,
    config: Option<SessionConfig>,
    peers: Vec<u64>,
    inbox: Vec<Packet>,
    outbox: Vec<Packet>,
}

impl View for GrainTarget {
    type V = TargetView;

    closed spec fn view(&self) -> TargetView {
        TargetView {
            key: self.key,
            state: self.state,
            cancelled: self.cancelled,
            config: opt_config_view(self.config),
            peers: self.peers@,
            inbox: self.inbox@,
            outbox: self.outbox@,
        }
    }
}

impl GrainTarget {
    /// The session's routing key.
    pub fn key(&self) -> (r: u64)
        ensures
            r == self@.key,
    {
        self.key
    }

    /// Configures the target and publishes its descriptor. Valid only
    /// before the first setup; the configuration is consumed. Fails
    /// with `InvalidConfig` when the region token is empty or already
    /// released, and with `SetupFailed` past the setup state. On
    /// success the target is ready to accept connections and
    /// transfers.
    pub fn setup(&mut self, config: SessionConfig) -> (r: Result<TargetInfo, Error>)
        requires
            old(self)@.wf(),
        ensures
            final(self)@.wf(),
            old(self)@.state != SessionState::Created ==> r == Result::<TargetInfo, Error>::Err(
                Error::SetupFailed,
            ) && final(self)@ == old(self)@,
            old(self)@.state == SessionState::Created && !config@.usable() ==> r == Result::<
                TargetInfo,
                Error,
            >::Err(Error::InvalidConfig) && final(self)@ == old(self)@,
            old(self)@.state == SessionState::Created && config@.usable() ==> (r matches Ok(info)
                && info@ == descriptor_of(old(self)@.key, config@) && final(self)@
                == (TargetView {
                state: SessionState::Ready,
                config: Some(config@),
                ..old(self)@
            })),
    {
        match self.state {
            SessionState::Created => {},
            _ => {
                return Err(Error::SetupFailed);
            },
        }
        if !(config.regions.is_registered() && config.regions.span_count() > 0) {
            return Err(Error::InvalidConfig);
        }
        let node = clone_opt_string(&config.endpoint.node);
        let service = clone_opt_string(&config.endpoint.service);
        let spans = config.regions.spans_to_vec();
        let info = TargetInfo::assemble(self.key, config.provider, node, service, spans);
        self.config = Some(config);
        self.state = SessionState::Ready;
        Ok(info)
    }

    /// One poll step: answer pending handshakes and report a completed
    /// inbound transfer if one is queued.
    fn poll_step(&mut self) -> (r: Result<GrainReadResult, Error>)
        requires
            old(self)@.wf(),
        ensures
            final(self)@.wf(),
            old(self)@.state != SessionState::Ready ==> r == Result::<GrainReadResult, Error>::Err(
                Error::InvalidState,
            ) && final(self)@ == old(self)@,
            old(self)@.state == SessionState::Ready && old(self)@.cancelled ==> r == Result::<
                GrainReadResult,
                Error,
            >::Err(Error::Interrupted) && final(self)@ == old(self)@,
            old(self)@.state == SessionState::Ready && !old(self)@.cancelled && old(
                self,
            )@.inbox.len() == 0 ==> r == Result::<GrainReadResult, Error>::Err(Error::NotReady)
                && final(self)@ == old(self)@,
            old(self)@.state == SessionState::Ready && !old(self)@.cancelled && old(
                self,
            )@.inbox.len() > 0 ==> {
                let popped = TargetView { inbox: old(self)@.inbox.drop_first(), ..old(self)@ };
                let stepped = popped.step(old(self)@.inbox[0]);
                &&& final(self)@ == stepped.0
                &&& r == (match stepped.1 {
                    Some(g) => Result::<GrainReadResult, Error>::Ok(g),
                    None => Result::<GrainReadResult, Error>::Err(Error::NotReady),
                })
            },
    {
        match self.state {
            SessionState::Ready => {},
            _ => {
                return Err(Error::InvalidState);
            },
        }
        if self.cancelled {
            return Err(Error::Interrupted);
        }
        if self.inbox.len() == 0 {
            return Err(Error::NotReady);
        }
        let p = self.inbox.remove(0);
        proof {
            assert(old(self)@.inbox.remove(0) =~= old(self)@.inbox.drop_first());
        }
        let ghost popped = TargetView { inbox: old(self)@.inbox.drop_first(), ..old(self)@ };
        match p.payload {
            Payload::ConnectRequest => {
                if !contains_u64(&self.peers, p.src) {
                    self.peers.push(p.src);
                }
                self.outbox.push(
                    Packet { src: self.key, dst: p.src, payload: Payload::ConnectAccept },
                );
                Err(Error::NotReady)
            },
            Payload::DisconnectRequest => {
                match find_u64(&self.peers, p.src) {
                    Some(i) => {
                        self.peers.remove(i);
                        proof {
                            assert(popped.peers.contains(p.src)) by {
                                assert(popped.peers[i as int] == p.src);
                            }
                            let c2 = choose|j: int|
                                0 <= j < popped.peers.len() && popped.peers[j] == p.src;
                            assert(c2 == i as int);
                            assert(self.peers@ =~= remove_peer(popped.peers, p.src));
                        }
                    },
                    None => {
                        proof {
                            assert(remove_peer(popped.peers, p.src) =~= popped.peers);
                        }
                    },
                }
                self.outbox.push(
                    Packet { src: self.key, dst: p.src, payload: Payload::DisconnectAck },
                );
                Err(Error::NotReady)
            },
            Payload::GrainData { grain_index, start_slice, end_slice } => {
                if contains_u64(&self.peers, p.src) {
                    Ok(GrainReadResult { grain_index, slice_index: end_slice })
                } else {
                    Err(Error::NotReady)
                }
            },
            _ => Err(Error::NotReady),
        }
    }

    /// Polls for one newly completed inbound transfer. Valid only on a
    /// configured session.
    ///
    /// Returns `NotReady` when nothing has completed — in this
    /// cooperative model no packet can arrive while the call is in
    /// progress, so there is nothing to gain by waiting and the call
    /// never blocks, whatever `timeout_millis` allows. Returns
    /// `Interrupted` once the session has been cancelled, without
    /// waiting out the timeout. Any other outcome is a completed grain.
    pub fn read(&mut self, timeout_millis: u64) -> (r: Result<GrainReadResult, Error>)
        requires
            old(self)@.wf(),
        ensures
            final(self)@.wf(),
            old(self)@.state != SessionState::Ready ==> r == Result::<GrainReadResult, Error>::Err(
                Error::InvalidState,
            ) && final(self)@ == old(self)@,
            old(self)@.state == SessionState::Ready && old(self)@.cancelled ==> r == Result::<
                GrainReadResult,
                Error,
            >::Err(Error::Interrupted) && final(self)@ == old(self)@,
            old(self)@.state == SessionState::Ready && !old(self)@.cancelled && old(
                self,
            )@.inbox.len() == 0 ==> r == Result::<GrainReadResult, Error>::Err(Error::NotReady)
                && final(self)@ == old(self)@,
            old(self)@.state == SessionState::Ready && !old(self)@.cancelled && old(
                self,
            )@.inbox.len() > 0 ==> {
                let popped = TargetView { inbox: old(self)@.inbox.drop_first(), ..old(self)@ };
                let stepped = popped.step(old(self)@.inbox[0]);
                &&& final(self)@ == stepped.0
                &&& r == (match stepped.1 {
                    Some(g) => Result::<GrainReadResult, Error>::Ok(g),
                    None => Result::<GrainReadResult, Error>::Err(Error::NotReady),
                })
            },
    {
        self.poll_step()
    }

    /// A single non-blocking poll, equivalent to [`GrainTarget::read`]
    /// with a zero timeout.
    pub fn read_non_blocking(&mut self) -> (r: Result<GrainReadResult, Error>)
        requires
            old(self)@.wf(),
        ensures
            final(self)@.wf(),
            old(self)@.state != SessionState::Ready ==> r == Result::<GrainReadResult, Error>::Err(
                Error::InvalidState,
            ) && final(self)@ == old(self)@,
            old(self)@.state == SessionState::Ready && old(self)@.cancelled ==> r == Result::<
                GrainReadResult,
                Error,
            >::Err(Error::Interrupted) && final(self)@ == old(self)@,
            old(self)@.state == SessionState::Ready && !old(self)@.cancelled && old(
                self,
            )@.inbox.len() == 0 ==> r == Result::<GrainReadResult, Error>::Err(Error::NotReady)
                && final(self)@ == old(self)@,
            old(self)@.state == SessionState::Ready && !old(self)@.cancelled && old(
                self,
            )@.inbox.len() > 0 ==> {
                let popped = TargetView { inbox: old(self)@.inbox.drop_first(), ..old(self)@ };
                let stepped = popped.step(old(self)@.inbox[0]);
                &&& final(self)@ == stepped.0
                &&& r == (match stepped.1 {
                    Some(g) => Result::<GrainReadResult, Error>::Ok(g),
                    None => Result::<GrainReadResult, Error>::Err(Error::NotReady),
                })
            },
    {
        self.poll_step()
    }

    /// Hands a packet delivered by the runtime to this session.
    /// Packets not addressed to this session, or arriving outside the
    /// configured state, are dropped.
    pub fn deliver(&mut self, p: Packet)
        requires
            old(self)@.wf(),
        ensures
            final(self)@.wf(),
            old(self)@.state == SessionState::Ready && p.dst == old(self)@.key ==> final(self)@
                == (TargetView { inbox: old(self)@.inbox.push(p), ..old(self)@ }),
            !(old(self)@.state == SessionState::Ready && p.dst == old(self)@.key) ==> final(self)@
                == old(self)@,
    {
        match self.state {
            SessionState::Ready => {},
            _ => {
                return ;
            },
        }
        if p.dst != self.key {
            return ;
        }
        self.inbox.push(p);
    }

    /// Takes the packets this session has produced, leaving its outbox
    /// empty. The runtime carries them to the sessions they address.
    pub fn take_outgoing(&mut self) -> (r: Vec<Packet>)
        requires
            old(self)@.wf(),
        ensures
            final(self)@.wf(),
            r@ == old(self)@.outbox,
            final(self)@ == (TargetView { outbox: Seq::empty(), ..old(self)@ }),
    {
        let r = self.outbox.split_off(0);
        proof {
            assert(r@ =~= old(self)@.outbox);
            assert(self.outbox@ =~= Seq::<Packet>::empty());
        }
        r
    }

    /// Requests cooperative cancellation: subsequent polls return
    /// `Interrupted` promptly instead of waiting out their timeout.
    pub fn cancel(&mut self)
        requires
            old(self)@.wf(),
        ensures
            final(self)@.wf(),
            final(self)@ == (TargetView { cancelled: true, ..old(self)@ }),
    {
        self.cancelled = true;
    }

    /// Releases the session's connection context. Idempotent: calling
    /// it again, or letting the session drop afterwards, releases
    /// nothing twice. Must be sequenced before the flow buffer whose
    /// regions were bound into this session's configuration is
    /// destroyed.
    pub fn destroy(&mut self)
        ensures
            final(self)@ == old(self)@.destroyed(),
            final(self)@.wf(),
    {
        self.state = SessionState::Destroyed;
        self.peers = Vec::new();
        self.inbox = Vec::new();
        self.outbox = Vec::new();
        proof {
            assert(final(self)@.peers =~= Seq::<u64>::empty());
            assert(final(self)@.inbox =~= Seq::<Packet>::empty());
            assert(final(self)@.outbox =~= Seq::<Packet>::empty());
        }
    }
}

} // verus!
