//! Provider names and descriptor text: round trips and rejection of
//! malformed text.

use mxl::{
    EndpointAddress, Error, FabricsInstance, FlowWriter, Provider, Region, TargetConfig,
    TargetInfo,
};

fn descriptor_with(node: Option<&str>, service: Option<&str>, spans: Vec<Region>) -> TargetInfo {
    let mut instance = FabricsInstance::new();
    let flow_writer = FlowWriter::new(spans);
    let regions = instance.regions_from_writer(&flow_writer).unwrap();
    let config = TargetConfig::new(
        EndpointAddress {
            node: node.map(|s| s.to_string()),
            service: service.map(|s| s.to_string()),
        },
        Provider::Tcp,
        regions,
        false,
    );
    let mut target = instance.create_target().unwrap().into_grain_target();
    target.setup(config).unwrap()
}

#[test]
fn provider_names_round_trip() {
    let providers = [
        Provider::Auto,
        Provider::Tcp,
        Provider::Verbs,
        Provider::Efa,
        Provider::Shm,
    ];
    for p in providers {
        let name = p.to_string();
        assert_eq!(Provider::from_name(&name), Ok(p));
    }
}

#[test]
fn provider_names_are_canonical() {
    assert_eq!(Provider::Auto.to_string(), "auto");
    assert_eq!(Provider::Tcp.to_string(), "tcp");
    assert_eq!(Provider::Verbs.to_string(), "verbs");
    assert_eq!(Provider::Efa.to_string(), "efa");
    assert_eq!(Provider::Shm.to_string(), "shm");
}

#[test]
fn unknown_provider_name_is_rejected() {
    assert_eq!(Provider::from_name("sockets"), Err(Error::UnknownProvider));
    assert_eq!(Provider::from_name(""), Err(Error::UnknownProvider));
    assert_eq!(Provider::from_name("TCP"), Err(Error::UnknownProvider));
}

#[test]
fn descriptor_round_trips_through_text() {
    let info = descriptor_with(
        Some("203.0.113.9"),
        Some("9000"),
        vec![
            Region {
                base: 0xdead_0000,
                len: 0x1000,
            },
            Region {
                base: u64::MAX,
                len: 0,
            },
        ],
    );
    let text = info.to_string();
    let back = TargetInfo::from_str(&text).unwrap();
    assert_eq!(back, info);
}

#[test]
fn descriptor_round_trips_without_address() {
    let info = descriptor_with(
        None,
        None,
        vec![Region {
            base: 0,
            len: 0x10_0000,
        }],
    );
    let text = info.to_string();
    let back = TargetInfo::from_str(&text).unwrap();
    assert_eq!(back, info);
}

#[test]
fn descriptor_text_survives_unicode_addresses() {
    let info = descriptor_with(
        Some("ünïcødé-høst"),
        Some("service;with+separators-"),
        vec![Region { base: 7, len: 7 }],
    );
    let text = info.to_string();
    let back = TargetInfo::from_str(&text).unwrap();
    assert_eq!(back, info);
}

#[test]
fn minimal_descriptor_text_parses() {
    let info = TargetInfo::from_str("mxlti10000000000000000t--0000000000000000").unwrap();
    assert_eq!(info.key(), 0);
    assert_eq!(info.provider(), Provider::Tcp);
}

#[test]
fn malformed_descriptor_text_is_rejected() {
    for text in [
        "",
        "junk",
        "mxlti1",
        // Wrong magic.
        "mxlti20000000000000000t--0000000000000000",
        "MXLTI10000000000000000t--0000000000000000",
        // A non-digit inside the key field.
        "mxlti1000000000000000Xt--0000000000000000",
        // An unknown provider code.
        "mxlti10000000000000000q--0000000000000000",
        // An unknown optional-field marker.
        "mxlti10000000000000000t?-0000000000000000",
        // One region announced, none present.
        "mxlti10000000000000000t--0000000000000001",
        // Trailing garbage after a complete descriptor.
        "mxlti10000000000000000t--0000000000000000extra",
        // A node field shorter than its announced length.
        "mxlti10000000000000000t+0000000000000005ab-0000000000000000",
    ] {
        assert_eq!(
            TargetInfo::from_str(text),
            Err(Error::MalformedDescriptor),
            "accepted: {text}"
        );
    }
}

#[test]
fn descriptor_text_is_stable() {
    let info = descriptor_with(Some("a"), None, vec![Region { base: 1, len: 2 }]);
    assert_eq!(
        info.to_string(),
        "mxlti10000000000000000t+0000000000000001a-0000000000000001\
         00000000000000010000000000000002"
    );
}
