//! Endpoint addressing and session configuration.

use vstd::prelude::*;

use crate::provider::Provider;
use crate::region::Regions;
use crate::region::RegionsView;

verus! {

/// The abstract state of an [`EndpointAddress`].
pub struct EndpointAddressView {
    pub node: Option<Seq<char>>,
    pub service: Option<Seq<char>>,
}

/// Address of a logical network endpoint, analogous to a host name and
/// port number. The meaning of `node` and `service` varies between
/// providers, but an IP address and a port number are usually
/// sufficient. An absent field means "let the provider choose", for
/// example bind to any local address.
pub struct EndpointAddress {
    pub node: Option<String>,
    pub service: Option<String>,
}

impl View for EndpointAddress {
    type V = EndpointAddressView;

    open spec fn view(&self) -> EndpointAddressView {
        EndpointAddressView {
            node: match self.node {
                Some(ref s) => Some(s@),
                None => None,
            },
            service: match self.service {
                Some(ref s) => Some(s@),
                None => None,
            },
        }
    }
}

/// The abstract state of a [`SessionConfig`].
pub struct SessionConfigView {
    pub endpoint: EndpointAddressView,
    pub provider: Provider,
    pub regions: RegionsView,
    pub device_support: bool,
}

impl SessionConfigView {
    /// A configuration is usable by setup when its region token is
    /// still registered and references at least one span.
    pub open spec fn usable(self) -> bool {
        self.regions.registered && self.regions.spans.len() > 0
    }
}

/// Configuration consumed exactly once by a session's setup call: the
/// local endpoint to bind, the transport provider, the registered
/// memory regions of the local flow buffer, and whether device (for
/// example GPU) memory semantics should be negotiated.
pub struct SessionConfig {
    pub endpoint: EndpointAddress,
    pub provider: Provider,
    pub regions: Regions,
    pub device_support: bool,
}

impl View for SessionConfig {
    type V = SessionConfigView;

    open spec fn view(&self) -> SessionConfigView {
        SessionConfigView {
            endpoint: self.endpoint@,
            provider: self.provider,
            regions: self.regions@,
            device_support: self.device_support,
        }
    }
}

impl SessionConfig {
    /// Assembles a session configuration.
    pub fn new(
        endpoint: EndpointAddress,
        provider: Provider,
        regions: Regions,
        device_support: bool,
    ) -> (r: SessionConfig)
        ensures
            r@.endpoint == endpoint@,
            r@.provider == provider,
            r@.regions == regions@,
            r@.device_support == device_support,
    {
        SessionConfig { endpoint, provider, regions, device_support }
    }
}

} // verus!
