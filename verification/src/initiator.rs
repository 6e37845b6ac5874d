//! The initiator role: the sending side of a transfer session. One
//! initiator may attach any number of targets; each is tracked
//! independently, while progress is driven for the initiator as a
//! whole.

use vstd::prelude::*;

use crate::endpoint::SessionConfig;
use crate::endpoint::SessionConfigView;
use crate::error::Error;
use crate::protocol::LinkState;
use crate::protocol::Packet;
use crate::protocol::Payload;
use crate::protocol::SessionState;
use crate::protocol::TargetLink;
use crate::target::opt_config_view;
use crate::target_info::TargetInfo;

verus! {

/// Whether some attached target has the given key.
pub open spec fn has_link(links: Seq<TargetLink>, k: u64) -> bool {
    exists|i: int| 0 <= i < links.len() && links[i].key == k
}

/// The position of the target with the given key. Meaningful only when
/// [`has_link`] holds; link keys are distinct in any well-formed
/// session.
pub open spec fn link_index(links: Seq<TargetLink>, k: u64) -> int {
    choose|i: int| 0 <= i < links.len() && links[i].key == k
}

/// Whether some attached target is connected and may receive
/// transfers.
pub open spec fn has_connected(links: Seq<TargetLink>) -> bool {
    exists|i: int| 0 <= i < links.len() && links[i].state == LinkState::Connected
}

/// The grain-data packets one transfer enqueues: one per attached
/// target, in attachment order. A target whose handshake is still in
/// flight receives the send too — its connection request already
/// precedes the grain data on the wire, so ordering is preserved.
/// Only a target whose shutdown has begun is excluded: no new work is
/// queued for a removed target.
pub open spec fn grain_packets(
    links: Seq<TargetLink>,
    src: u64,
    grain_index: u64,
    start_slice: u16,
    end_slice: u16,
) -> Seq<Packet>
    decreases links.len(),
{
    if links.len() == 0 {
        Seq::empty()
    } else {
        let rest = grain_packets(links.drop_last(), src, grain_index, start_slice, end_slice);
        if links.last().state != LinkState::Draining {
            rest.push(
                Packet {
                    src,
                    dst: links.last().key,
                    payload: Payload::GrainData { grain_index, start_slice, end_slice },
                },
            )
        } else {
            rest
        }
    }
}

/// Whether queued work contains a grain transfer. Handing a grain
/// packet to the wire completes that send on the initiator's side;
/// handing a handshake packet to the wire completes nothing, since the
/// handshake only resolves when the peer answers.
pub open spec fn flushes_transfer(pending: Seq<Packet>) -> bool {
    exists|i: int| 0 <= i < pending.len() && pending[i].payload is GrainData
}

/// The abstract state of a [`GrainInitiator`].
pub struct InitiatorView {
    /// The session's routing key.
    pub key: u64,
    pub state: SessionState,
    pub cancelled: bool,
    /// The configuration consumed by setup, once configured.
    pub config: Option<SessionConfigView>,
    /// The attached targets and the state of each connection.
    pub links: Seq<TargetLink>,
    /// Work queued by non-blocking calls, handed to the wire by the
    /// next progress call.
    pub pending: Seq<Packet>,
    /// Packets this session has produced for the runtime to carry.
    pub outbox: Seq<Packet>,
    /// Packets delivered by the runtime and not yet processed.
    pub inbox: Seq<Packet>,
}

impl InitiatorView {
    /// Internal consistency: attached targets have distinct keys,
    /// queued packets are addressed to this session, and the lifecycle
    /// state bounds what the session may hold.
    pub open spec fn wf(self) -> bool {
        &&& (forall|i: int, j: int|
            0 <= i < j < self.links.len() ==> self.links[i].key != self.links[j].key)
        &&& (forall|i: int| 0 <= i < self.inbox.len() ==> self.inbox[i].dst == self.key)
        &&& (self.state == SessionState::Created ==> self.links.len() == 0 && self.pending.len()
            == 0 && self.outbox.len() == 0 && self.inbox.len() == 0 && self.config is None)
        &&& (self.state == SessionState::Ready ==> self.config is Some)
        &&& (self.state == SessionState::Destroyed ==> self.links.len() == 0 && self.pending.len()
            == 0 && self.outbox.len() == 0 && self.inbox.len() == 0)
    }

    /// The state after releasing the session's connection context.
    pub open spec fn destroyed(self) -> InitiatorView {
        InitiatorView {
            state: SessionState::Destroyed,
            links: Seq::empty(),
            pending: Seq::empty(),
            outbox: Seq::empty(),
            inbox: Seq::empty(),
            ..self
        }
    }

    /// The state after all queued work has been handed to the wire.
    pub open spec fn flushed(self) -> InitiatorView {
        InitiatorView { pending: Seq::empty(), outbox: self.outbox + self.pending, ..self }
    }

    /// How one inbound packet advances the session: the state after
    /// the packet, and whether it completed a unit of outstanding work.
    ///
    /// A connection accept completes the handshake of the matching
    /// connecting target; a disconnect acknowledgement completes the
    /// shutdown of the matching draining target, which is then
    /// detached; anything else is dropped.
    pub open spec fn step(self, p: Packet) -> (InitiatorView, bool) {
        match p.payload {
            Payload::ConnectAccept => {
                if has_link(self.links, p.src) && self.links[link_index(self.links, p.src)].state
                    == LinkState::Connecting {
                    (
                        InitiatorView {
                            links: self.links.update(
                                link_index(self.links, p.src),
                                TargetLink { key: p.src, state: LinkState::Connected },
                            ),
                            ..self
                        },
                        true,
                    )
                } else {
                    (self, false)
                }
            },
            Payload::DisconnectAck => {
                if has_link(self.links, p.src) && self.links[link_index(self.links, p.src)].state
                    == LinkState::Draining {
                    (
                        InitiatorView { links: self.links.remove(link_index(self.links, p.src)), ..self },
                        true,
                    )
                } else {
                    (self, false)
                }
            },
            _ => (self, false),
        }
    }
}

/// Holds a slice range against the grain's valid slice count, which
/// is a property of the flow's format and is obtained from the flow
/// buffer. A slice bound marks how far through the grain's payload
/// the transfer reaches, so the far edge of a full grain equals the
/// slice count itself — the receiving side commits that bound
/// directly. A range is usable exactly when its start is not past its
/// end and neither bound lies beyond the count; anything else is
/// `InvalidRange` and is never enqueued.
pub fn validate_slice_range(start_slice: u16, end_slice: u16, slice_count: u16) -> (r: Result<
    (),
    Error,
>)
    ensures
        start_slice <= end_slice && end_slice <= slice_count ==> r == Result::<(), Error>::Ok(()),
        !(start_slice <= end_slice && end_slice <= slice_count) ==> r == Result::<(), Error>::Err(
            Error::InvalidRange,
        ),
{
    if start_slice <= end_slice && end_slice <= slice_count {
        Ok(())
    } else {
        Err(Error::InvalidRange)
    }
}

/// Double `destroy` is a no-op: releasing an already released session
/// changes nothing.
pub proof fn lemma_initiator_destroy_idempotent(v: InitiatorView)
    ensures
        v.destroyed().destroyed() == v.destroyed(),
{
}

/// The position of the link with the given key, if one is attached.
fn find_link(v: &Vec<TargetLink>, k: u64) -> (r: Option<usize>)
    ensures
        match r {
            Some(i) => i < v@.len() && v@[i as int].key == k,
            None => !has_link(v@, k),
        },
{
    let mut i: usize = 0;
    while i < v.len()
        invariant
            i <= v@.len(),
            forall|j: int| 0 <= j < i ==> v@[j].key != k,
        decreases v@.len() - i,
    {
        if v[i].key == k {
            return Some(i);
        }
        i += 1;
    }
    None
}

/// Whether some attached target is connected.
fn find_connected(v: &Vec<TargetLink>) -> (r: bool)
    ensures
        r == has_connected(v@),
{
    let mut i: usize = 0;
    while i < v.len()
        invariant
            i <= v@.len(),
            forall|j: int| 0 <= j < i ==> v@[j].state != LinkState::Connected,
        decreases v@.len() - i,
    {
        if matches!(v[i].state, LinkState::Connected) {
            return true;
        }
        i += 1;
    }
    false
}

/// Whether queued work contains a grain transfer.
fn has_grain_packet(v: &Vec<Packet>) -> (r: bool)
    ensures
        r == flushes_transfer(v@),
{
    let mut i: usize = 0;
    while i < v.len()
        invariant
            i <= v@.len(),
            forall|j: int| 0 <= j < i ==> !(v@[j].payload is GrainData),
        decreases v@.len() - i,
    {
        if matches!(v[i].payload, Payload::GrainData { .. }) {
            proof {
                assert(v@[i as int].payload is GrainData);
            }
            return true;
        }
        i += 1;
    }
    false
}

/// An unspecialised initiator session: a connection context bound to a
/// key but not yet committed to a transfer discipline.
pub struct UnspecInitiator {
    key: u64,
}

impl View for UnspecInitiator {
    type V = u64;

    closed spec fn view(&self) -> u64 {
        self.key
    }
}

impl UnspecInitiator {
    pub(crate) fn with_key(key: u64) -> (r: UnspecInitiator)
        ensures
            r@ == key,
    {
        UnspecInitiator { key }
    }

    /// Specialises this session to transfer grains.
    pub fn into_grain_initiator(self) -> (r: GrainInitiator)
        ensures
            r@ == (InitiatorView {
                key: self@,
                state: SessionState::Created,
                cancelled: false,
                config: None,
                links: Seq::empty(),
                pending: Seq::empty(),
                outbox: Seq::empty(),
                inbox: Seq::empty(),
            }),
            r@.wf(),
    {
        GrainInitiator {
            key: self.key,
            state: SessionState::Created,
            cancelled: false,
            config: None,
            links: Vec::new(),
            pending: Vec::new(),
            outbox: Vec::new(),
            inbox: Vec::new(),
        }
    }
}

/// A grain-based initiator session: it attaches targets through their
/// descriptors and pushes grain transfers to every connected one. All
/// work advances only inside explicit calls; nothing runs in the
/// background.
pub struct GrainInitiator {
    key: u64,
    state: SessionState,
    cancelled: bool,
    config: Option<SessionConfig>,
    links: Vec<TargetLink>,
    pending: Vec<Packet>,
    outbox: Vec<Packet>,
    inbox: Vec<Packet>,
}

impl View for GrainInitiator {
    type V = InitiatorView;

    closed spec fn view(&self) -> InitiatorView {
        InitiatorView {
            key: self.key,
            state: self.state,
            cancelled: self.cancelled,
            config: opt_config_view(self.config),
            links: self.links@,
            pending: self.pending@,
            outbox: self.outbox@,
            inbox: self.inbox@,
        }
    }
}

impl GrainInitiator {
    /// The session's routing key.
    pub fn key(&self) -> (r: u64)
        ensures
            r == self@.key,
    {
        self.key
    }

    /// Configures the initiator. Valid only before the first setup;
    /// the configuration is consumed. Fails with `InvalidConfig` when
    /// the region token is empty or already released, and with
    /// `SetupFailed` past the setup state.
    pub fn setup(&mut self, config: SessionConfig) -> (r: Result<(), Error>)
        requires
            old(self)@.wf(),
        ensures
            final(self)@.wf(),
            old(self)@.state != SessionState::Created ==> r == Result::<(), Error>::Err(
                Error::SetupFailed,
            ) && final(self)@ == old(self)@,
            old(self)@.state == SessionState::Created && !config@.usable() ==> r == Result::<
                (),
                Error,
            >::Err(Error::InvalidConfig) && final(self)@ == old(self)@,
            old(self)@.state == SessionState::Created && config@.usable() ==> r == Result::<
                (),
                Error,
            >::Ok(()) && final(self)@ == (InitiatorView {
                state: SessionState::Ready,
                config: Some(config@),
                ..old(self)@
            }),
    {
        match self.state {
            SessionState::Created => {},
            _ => {
                return Err(Error::SetupFailed);
            },
        }
        if !(config.regions.is_registered() && config.regions.span_count() > 0) {
            return Err(Error::InvalidConfig);
        }
        self.config = Some(config);
        self.state = SessionState::Ready;
        Ok(())
    }

    /// Attaches a target through its descriptor and queues the
    /// connection attempt. Never blocks; the handshake completes only
    /// once later progress calls stop reporting `NotReady`. Attaching
    /// a target that is already attached fails with `DuplicateTarget`.
    pub fn add_target(&mut self, info: &TargetInfo) -> (r: Result<(), Error>)
        requires
            old(self)@.wf(),
        ensures
            final(self)@.wf(),
            old(self)@.state != SessionState::Ready ==> r == Result::<(), Error>::Err(
                Error::InvalidState,
            ) && final(self)@ == old(self)@,
            old(self)@.state == SessionState::Ready && has_link(old(self)@.links, info@.key) ==> r
                == Result::<(), Error>::Err(Error::DuplicateTarget) && final(self)@ == old(self)@,
            old(self)@.state == SessionState::Ready && !has_link(old(self)@.links, info@.key) ==> r
                == Result::<(), Error>::Ok(()) && final(self)@ == (InitiatorView {
                links: old(self)@.links.push(
                    TargetLink { key: info@.key, state: LinkState::Connecting },
                ),
                pending: old(self)@.pending.push(
                    Packet {
                        src: old(self)@.key,
                        dst: info@.key,
                        payload: Payload::ConnectRequest,
                    },
                ),
                ..old(self)@
            }),
    {
        match self.state {
            SessionState::Ready => {},
            _ => {
                return Err(Error::InvalidState);
            },
        }
        let key = info.key();
        match find_link(&self.links, key) {
            Some(_) => Err(Error::DuplicateTarget),
            None => {
                self.links.push(TargetLink { key, state: LinkState::Connecting });
                self.pending.push(
                    Packet { src: self.key, dst: key, payload: Payload::ConnectRequest },
                );
                Ok(())
            },
        }
    }

    /// Detaches a target and queues its graceful shutdown. Never
    /// blocks. No new transfer is queued for the target after this
    /// call, but in-flight work and the shutdown handshake are still
    /// completed by later progress calls. Removing a target that was
    /// already removed while its shutdown is still draining is a
    /// no-op; removing an unknown target fails with `UnknownTarget`.
    pub fn remove_target(&mut self, info: &TargetInfo) -> (r: Result<(), Error>)
        requires
            old(self)@.wf(),
        ensures
            final(self)@.wf(),
            old(self)@.state != SessionState::Ready ==> r == Result::<(), Error>::Err(
                Error::InvalidState,
            ) && final(self)@ == old(self)@,
            old(self)@.state == SessionState::Ready && !has_link(old(self)@.links, info@.key) ==> r
                == Result::<(), Error>::Err(Error::UnknownTarget) && final(self)@ == old(self)@,
            old(self)@.state == SessionState::Ready && has_link(old(self)@.links, info@.key) && old(
                self,
            )@.links[link_index(old(self)@.links, info@.key)].state == LinkState::Draining ==> r
                == Result::<(), Error>::Ok(()) && final(self)@ == old(self)@,
            old(self)@.state == SessionState::Ready && has_link(old(self)@.links, info@.key) && old(
                self,
            )@.links[link_index(old(self)@.links, info@.key)].state != LinkState::Draining ==> r
                == Result::<(), Error>::Ok(()) && final(self)@ == (InitiatorView {
                links: old(self)@.links.update(
                    link_index(old(self)@.links, info@.key),
                    TargetLink { key: info@.key, state: LinkState::Draining },
                ),
                pending: old(self)@.pending.push(
                    Packet {
                        src: old(self)@.key,
                        dst: info@.key,
                        payload: Payload::DisconnectRequest,
                    },
                ),
                ..old(self)@
            }),
    {
        match self.state {
            SessionState::Ready => {},
            _ => {
                return Err(Error::InvalidState);
            },
        }
        let key = info.key();
        match find_link(&self.links, key) {
            None => Err(Error::UnknownTarget),
            Some(i) => {
                proof {
                    assert(has_link(self.links@, key)) by {
                        assert(self.links@[i as int].key == key);
                    }
                    let c = link_index(self.links@, key);
                    assert(c == i as int);
                }
                if matches!(self.links[i].state, LinkState::Draining) {
                    return Ok(());
                }
                self.links.set(i, TargetLink { key, state: LinkState::Draining });
                self.pending.push(
                    Packet { src: self.key, dst: key, payload: Payload::DisconnectRequest },
                );
                Ok(())
            },
        }
    }

    /// Enqueues a transfer of the given slice range of the given grain
    /// to every currently attached target — including one whose
    /// handshake is still in flight, whose grain data then follows its
    /// connection request on the wire — excepting only targets whose
    /// removal is draining. Never blocks. `slice_count` is the grain's
    /// valid slice count, a property of the flow the data comes from,
    /// supplied by the flow buffer. Fails with `InvalidRange` when the
    /// range's start is past its end or either bound lies beyond the
    /// slice count, and with `NotReady` while no target connection is
    /// established yet — either way the transfer is not queued
    /// anywhere, and for `NotReady` the caller retries after driving
    /// progress. The send is only guaranteed complete once later
    /// progress calls stop reporting `NotReady`. Callers are expected
    /// to issue non-decreasing grain indices per target, except when
    /// resynchronising after a too-late window classification.
    pub fn transfer(
        &mut self,
        grain_index: u64,
        start_slice: u16,
        end_slice: u16,
        slice_count: u16,
    ) -> (r: Result<(), Error>)
        requires
            old(self)@.wf(),
        ensures
            final(self)@.wf(),
            old(self)@.state != SessionState::Ready ==> r == Result::<(), Error>::Err(
                Error::InvalidState,
            ) && final(self)@ == old(self)@,
            old(self)@.state == SessionState::Ready && !(start_slice <= end_slice && end_slice
                <= slice_count) ==> r == Result::<(), Error>::Err(Error::InvalidRange)
                && final(self)@ == old(self)@,
            old(self)@.state == SessionState::Ready && start_slice <= end_slice && end_slice
                <= slice_count && !has_connected(old(self)@.links) ==> r == Result::<(), Error>::Err(
                Error::NotReady,
            ) && final(self)@ == old(self)@,
            old(self)@.state == SessionState::Ready && start_slice <= end_slice && end_slice
                <= slice_count && has_connected(old(self)@.links) ==> r == Result::<(), Error>::Ok(
                (),
            ) && final(self)@ == (InitiatorView {
                pending: old(self)@.pending + grain_packets(
                    old(self)@.links,
                    old(self)@.key,
                    grain_index,
                    start_slice,
                    end_slice,
                ),
                ..old(self)@
            }),
    {
        match self.state {
            SessionState::Ready => {},
            _ => {
                return Err(Error::InvalidState);
            },
        }
        match validate_slice_range(start_slice, end_slice, slice_count) {
            Ok(()) => {},
            Err(e) => {
                return Err(e);
            },
        }
        if !find_connected(&self.links) {
            return Err(Error::NotReady);
        }
        let ghost links0 = self.links@;
        proof {
            assert(old(self)@.pending + grain_packets(
                links0.take(0),
                old(self)@.key,
                grain_index,
                start_slice,
                end_slice,
            ) =~= old(self)@.pending);
        }
        let mut i: usize = 0;
        while i < self.links.len()
            invariant
                i <= links0.len(),
                self@ == (InitiatorView {
                    pending: old(self)@.pending + grain_packets(
                        links0.take(i as int),
                        old(self)@.key,
                        grain_index,
                        start_slice,
                        end_slice,
                    ),
                    ..old(self)@
                }),
                links0 == old(self)@.links,
            decreases links0.len() - i,
        {
            let ghost prefix = links0.take(i as int);
            if !matches!(self.links[i].state, LinkState::Draining) {
                let dst = self.links[i].key;
                self.pending.push(
                    Packet {
                        src: self.key,
                        dst,
                        payload: Payload::GrainData { grain_index, start_slice, end_slice },
                    },
                );
            }
            proof {
                let cur = links0.take(i as int + 1);
                assert(cur.drop_last() =~= prefix);
                assert(cur.last() == links0[i as int]);
                assert(self.pending@ =~= old(self)@.pending + grain_packets(
                    cur,
                    old(self)@.key,
                    grain_index,
                    start_slice,
                    end_slice,
                ));
            }
            i += 1;
        }
        proof {
            assert(links0.take(links0.len() as int) =~= links0);
        }
        Ok(())
    }

    /// One progress step, shared by the blocking and non-blocking
    /// entry points.
    fn progress_step(&mut self) -> (r: Result<(), Error>)
        requires
            old(self)@.wf(),
        ensures
            final(self)@.wf(),
            old(self)@.state == SessionState::Destroyed ==> r == Result::<(), Error>::Err(
                Error::InvalidState,
            ) && final(self)@ == old(self)@,
            old(self)@.state == SessionState::Created ==> r == Result::<(), Error>::Err(
                Error::NotReady,
            ) && final(self)@ == old(self)@,
            old(self)@.state == SessionState::Ready && old(self)@.cancelled ==> r == Result::<
                (),
                Error,
            >::Err(Error::Interrupted) && final(self)@ == old(self)@,
            old(self)@.state == SessionState::Ready && !old(self)@.cancelled && old(
                self,
            )@.inbox.len() == 0 ==> final(self)@ == old(self)@.flushed() && r == (if flushes_transfer(
                old(self)@.pending,
            ) {
                Result::<(), Error>::Ok(())
            } else {
                Result::<(), Error>::Err(Error::NotReady)
            }),
            old(self)@.state == SessionState::Ready && !old(self)@.cancelled && old(
                self,
            )@.inbox.len() > 0 ==> {
                let popped = InitiatorView {
                    inbox: old(self)@.inbox.drop_first(),
                    ..old(self)@.flushed()
                };
                let stepped = popped.step(old(self)@.inbox[0]);
                &&& final(self)@ == stepped.0
                &&& r == (if stepped.1 || flushes_transfer(old(self)@.pending) {
                    Result::<(), Error>::Ok(())
                } else {
                    Result::<(), Error>::Err(Error::NotReady)
                })
            },
    {
        match self.state {
            SessionState::Ready => {},
            SessionState::Created => {
                return Err(Error::NotReady);
            },
            SessionState::Destroyed => {
                return Err(Error::InvalidState);
            },
        }
        if self.cancelled {
            return Err(Error::Interrupted);
        }
        let flushed_any = has_grain_packet(&self.pending);
        self.outbox.append(&mut self.pending);
        if self.inbox.len() == 0 {
            if flushed_any {
                return Ok(());
            }
            return Err(Error::NotReady);
        }
        let p = self.inbox.remove(0);
        proof {
            assert(old(self)@.inbox.remove(0) =~= old(self)@.inbox.drop_first());
        }
        let ghost popped = InitiatorView {
            inbox: old(self)@.inbox.drop_first(),
            ..old(self)@.flushed()
        };
        let completed: bool = match p.payload {
            Payload::ConnectAccept => {
                match find_link(&self.links, p.src) {
                    Some(i) => {
                        proof {
                            assert(has_link(popped.links, p.src)) by {
                                assert(popped.links[i as int].key == p.src);
                            }
                            let c = link_index(popped.links, p.src);
                            assert(c == i as int);
                        }
                        if matches!(self.links[i].state, LinkState::Connecting) {
                            self.links.set(
                                i,
                                TargetLink { key: p.src, state: LinkState::Connected },
                            );
                            true
                        } else {
                            false
                        }
                    },
                    None => false,
                }
            },
            Payload::DisconnectAck => {
                match find_link(&self.links, p.src) {
                    Some(i) => {
                        proof {
                            assert(has_link(popped.links, p.src)) by {
                                assert(popped.links[i as int].key == p.src);
                            }
                            let c = link_index(popped.links, p.src);
                            assert(c == i as int);
                        }
                        if matches!(self.links[i].state, LinkState::Draining) {
                            self.links.remove(i);
                            true
                        } else {
                            false
                        }
                    },
                    None => false,
                }
            },
            _ => false,
        };
        if completed || flushed_any {
            Ok(())
        } else {
            Err(Error::NotReady)
        }
    }

    /// Drives all outstanding work: hands queued packets to the wire
    /// and processes one delivered packet. Returns `Ok` when a unit of
    /// outstanding work completed — a queued transfer was handed to
    /// the wire, a connection handshake completed, or a shutdown
    /// handshake resolved — `NotReady` when nothing completed
    /// within this call — including the case of no outstanding work at
    /// all, which is always safe — and `Interrupted` once the session
    /// has been cancelled. In this cooperative model no packet can
    /// arrive while the call is in progress, so there is nothing to
    /// gain by waiting and the call never blocks, whatever
    /// `timeout_millis` allows.
    pub fn make_progress(&mut self, timeout_millis: u64) -> (r: Result<(), Error>)
        requires
            old(self)@.wf(),
        ensures
            final(self)@.wf(),
            old(self)@.state == SessionState::Destroyed ==> r == Result::<(), Error>::Err(
                Error::InvalidState,
            ) && final(self)@ == old(self)@,
            old(self)@.state == SessionState::Created ==> r == Result::<(), Error>::Err(
                Error::NotReady,
            ) && final(self)@ == old(self)@,
            old(self)@.state == SessionState::Ready && old(self)@.cancelled ==> r == Result::<
                (),
                Error,
            >::Err(Error::Interrupted) && final(self)@ == old(self)@,
            old(self)@.state == SessionState::Ready && !old(self)@.cancelled && old(
                self,
            )@.inbox.len() == 0 ==> final(self)@ == old(self)@.flushed() && r == (if flushes_transfer(
                old(self)@.pending,
            ) {
                Result::<(), Error>::Ok(())
            } else {
                Result::<(), Error>::Err(Error::NotReady)
            }),
            old(self)@.state == SessionState::Ready && !old(self)@.cancelled && old(
                self,
            )@.inbox.len() > 0 ==> {
                let popped = InitiatorView {
                    inbox: old(self)@.inbox.drop_first(),
                    ..old(self)@.flushed()
                };
                let stepped = popped.step(old(self)@.inbox[0]);
                &&& final(self)@ == stepped.0
                &&& r == (if stepped.1 || flushes_transfer(old(self)@.pending) {
                    Result::<(), Error>::Ok(())
                } else {
                    Result::<(), Error>::Err(Error::NotReady)
                })
            },
    {
        self.progress_step()
    }

    /// A single non-blocking progress step, equivalent to
    /// [`GrainInitiator::make_progress`] with a zero timeout.
    pub fn make_progress_non_blocking(&mut self) -> (r: Result<(), Error>)
        requires
            old(self)@.wf(),
        ensures
            final(self)@.wf(),
            old(self)@.state == SessionState::Destroyed ==> r == Result::<(), Error>::Err(
                Error::InvalidState,
            ) && final(self)@ == old(self)@,
            old(self)@.state == SessionState::Created ==> r == Result::<(), Error>::Err(
                Error::NotReady,
            ) && final(self)@ == old(self)@,
            old(self)@.state == SessionState::Ready && old(self)@.cancelled ==> r == Result::<
                (),
                Error,
            >::Err(Error::Interrupted) && final(self)@ == old(self)@,
            old(self)@.state == SessionState::Ready && !old(self)@.cancelled && old(
                self,
            )@.inbox.len() == 0 ==> final(self)@ == old(self)@.flushed() && r == (if flushes_transfer(
                old(self)@.pending,
            ) {
                Result::<(), Error>::Ok(())
            } else {
                Result::<(), Error>::Err(Error::NotReady)
            }),
            old(self)@.state == SessionState::Ready && !old(self)@.cancelled && old(
                self,
            )@.inbox.len() > 0 ==> {
                let popped = InitiatorView {
                    inbox: old(self)@.inbox.drop_first(),
                    ..old(self)@.flushed()
                };
                let stepped = popped.step(old(self)@.inbox[0]);
                &&& final(self)@ == stepped.0
                &&& r == (if stepped.1 || flushes_transfer(old(self)@.pending) {
                    Result::<(), Error>::Ok(())
                } else {
                    Result::<(), Error>::Err(Error::NotReady)
                })
            },
    {
        self.progress_step()
    }

    /// Hands a packet delivered by the runtime to this session.
    /// Packets not addressed to this session, or arriving outside the
    /// configured state, are dropped.
    pub fn deliver(&mut self, p: Packet)
        requires
            old(self)@.wf(),
        ensures
            final(self)@.wf(),
            old(self)@.state == SessionState::Ready && p.dst == old(self)@.key ==> final(self)@
                == (InitiatorView { inbox: old(self)@.inbox.push(p), ..old(self)@ }),
            !(old(self)@.state == SessionState::Ready && p.dst == old(self)@.key) ==> final(self)@
                == old(self)@,
    {
        match self.state {
            SessionState::Ready => {},
            _ => {
                return ;
            },
        }
        if p.dst != self.key {
            return ;
        }
        self.inbox.push(p);
    }

    /// Takes the packets this session has produced, leaving its outbox
    /// empty. The runtime carries them to the sessions they address.
    pub fn take_outgoing(&mut self) -> (r: Vec<Packet>)
        requires
            old(self)@.wf(),
        ensures
            final(self)@.wf(),
            r@ == old(self)@.outbox,
            final(self)@ == (InitiatorView { outbox: Seq::empty(), ..old(self)@ }),
    {
        let r = self.outbox.split_off(0);
        proof {
            assert(r@ =~= old(self)@.outbox);
            assert(self.outbox@ =~= Seq::<Packet>::empty());
        }
        r
    }

    /// Requests cooperative cancellation: subsequent progress calls
    /// return `Interrupted` promptly instead of waiting out their
    /// timeout.
    pub fn cancel(&mut self)
        requires
            old(self)@.wf(),
        ensures
            final(self)@.wf(),
            final(self)@ == (InitiatorView { cancelled: true, ..old(self)@ }),
    {
        self.cancelled = true;
    }

    /// Releases the session's connection context. Idempotent: calling
    /// it again, or letting the session drop afterwards, releases
    /// nothing twice. Must be sequenced before the flow buffer whose
    /// regions were bound into this session's configuration is
    /// destroyed.
    pub fn destroy(&mut self)
        ensures
            final(self)@ == old(self)@.destroyed(),
            final(self)@.wf(),
    {
        self.state = SessionState::Destroyed;
        self.links = Vec::new();
        self.pending = Vec::new();
        self.outbox = Vec::new();
        self.inbox = Vec::new();
        proof {
            assert(final(self)@.links =~= Seq::<TargetLink>::empty());
            assert(final(self)@.pending =~= Seq::<Packet>::empty());
            assert(final(self)@.outbox =~= Seq::<Packet>::empty());
            assert(final(self)@.inbox =~= Seq::<Packet>::empty());
        }
    }
}

} // verus!
