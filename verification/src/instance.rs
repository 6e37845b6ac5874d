//! The factory for transfer sessions and the values they consume.

use vstd::prelude::*;

use crate::error::Error;
use crate::initiator::UnspecInitiator;
use crate::provider::provider_of_name;
use crate::provider::Provider;
use crate::region::regions_for_reader;
use crate::region::regions_for_writer;
use crate::region::FlowReader;
use crate::region::FlowWriter;
use crate::region::Regions;
use crate::target::UnspecTarget;
use crate::target_info::parse_info;
use crate::target_info::TargetInfo;

verus! {

/// The factory for fabrics objects: targets, initiators, region
/// registrations, providers and descriptors. It assigns each session a
/// key that is unique within this instance; the runtime that carries
/// packets routes them by these keys.
pub struct FabricsInstance {
    next_key: u64,
}

impl View for FabricsInstance {
    type V = u64;

    closed spec fn view(&self) -> u64 {
        self.next_key
    }
}

impl FabricsInstance {
    /// Creates a fresh instance.
    pub fn new() -> (r: FabricsInstance)
        ensures
            r@ == 0,
    {
        FabricsInstance { next_key: 0 }
    }

    /// How many session keys this instance has handed out. Creating a
    /// session requires that a key is still free.
    pub fn keys_used(&self) -> (r: u64)
        ensures
            r == self@,
    {
        self.next_key
    }

    /// Creates a fabrics target: the receiver of write operations from
    /// an initiator.
    pub fn create_target(&mut self) -> (r: Result<UnspecTarget, Error>)
        requires
            old(self)@ < u64::MAX,
        ensures
            final(self)@ == old(self)@ + 1,
            r matches Ok(t) && t@ == old(self)@,
    {
        let key = self.next_key;
        self.next_key = self.next_key + 1;
        Ok(UnspecTarget::with_key(key))
    }

    /// Creates a fabrics initiator: the sender of write operations to
    /// one or more targets.
    pub fn create_initiator(&mut self) -> (r: Result<UnspecInitiator, Error>)
        requires
            old(self)@ < u64::MAX,
        ensures
            final(self)@ == old(self)@ + 1,
            r matches Ok(t) && t@ == old(self)@,
    {
        let key = self.next_key;
        self.next_key = self.next_key + 1;
        Ok(UnspecInitiator::with_key(key))
    }

    /// Registers the memory regions backing a flow reader as the
    /// source of transfer operations.
    pub fn regions_from_reader(&self, flow_reader: &FlowReader) -> (r: Result<Regions, Error>)
        ensures
            flow_reader@.available ==> (r matches Ok(regions) && regions@.spans
                == flow_reader@.regions && regions@.registered),
            !flow_reader@.available ==> r == Result::<Regions, Error>::Err(Error::BufferUnavailable),
    {
        regions_for_reader(flow_reader)
    }

    /// Registers the memory regions backing a flow writer as the
    /// destination of transfer operations.
    pub fn regions_from_writer(&self, flow_writer: &FlowWriter) -> (r: Result<Regions, Error>)
        ensures
            flow_writer@.available ==> (r matches Ok(regions) && regions@.spans
                == flow_writer@.regions && regions@.registered),
            !flow_writer@.available ==> r == Result::<Regions, Error>::Err(Error::BufferUnavailable),
    {
        regions_for_writer(flow_writer)
    }

    /// The provider a text name denotes.
    pub fn provider_from_str(&self, provider: &str) -> (r: Result<Provider, Error>)
        ensures
            r == (match provider_of_name(provider@) {
                Some(p) => Result::<Provider, Error>::Ok(p),
                None => Result::<Provider, Error>::Err(Error::UnknownProvider),
            }),
    {
        Provider::from_name(provider)
    }

    /// Parses a target descriptor from its text representation.
    pub fn target_info_from_str(&self, target_info: &str) -> (r: Result<TargetInfo, Error>)
        ensures
            match parse_info(target_info@) {
                Some(dv) => r matches Ok(d) && d@ == dv,
                None => r == Result::<TargetInfo, Error>::Err(Error::MalformedDescriptor),
            },
    {
        TargetInfo::from_str(target_info)
    }
}

} // verus!
