//! Grain transport protocol core.
//!
//! This crate moves discrete units of time-indexed media data
//! ("grains") between processes over a pluggable network transport. It
//! owns the protocol layer: endpoint configuration, memory-region
//! registration, the connection and session lifecycle for the two
//! protocol roles (an initiator sends, a target receives), the
//! cooperative progress-driven completion model, and the
//! clock-synchronised window logic that decides whether a grain index
//! is still transferable.
//!
//! The wire bytes of a concrete transport (TCP, RDMA verbs, EFA,
//! shared memory) are a provider's concern and are not defined here. A
//! session exchanges [`protocol::Packet`] values with its peers; the
//! surrounding runtime carries them over whatever transport the
//! configured [`Provider`] selects, taking outbound packets with
//! `take_outgoing` and handing inbound ones back with `deliver`. No
//! work advances except during an explicit call to a progress or read
//! operation: the model is cooperative, not preemptive.

pub mod clock;
pub mod codec;
pub mod config;
pub mod endpoint;
pub mod error;
pub mod initiator;
pub mod instance;
pub mod protocol;
pub mod provider;
pub mod region;
pub mod target;
pub mod target_info;

pub use endpoint::EndpointAddress;
pub use endpoint::SessionConfig;
pub use endpoint::SessionConfig as InitiatorConfig;
pub use endpoint::SessionConfig as TargetConfig;
pub use error::Error;
pub use initiator::validate_slice_range;
pub use initiator::GrainInitiator;
pub use initiator::UnspecInitiator;
pub use instance::FabricsInstance;
pub use provider::Provider;
pub use region::FlowReader;
pub use region::FlowWriter;
pub use region::Region;
pub use region::Regions;
pub use target::GrainReadResult;
pub use target::GrainTarget;
pub use target::UnspecTarget;
pub use target_info::TargetInfo;
