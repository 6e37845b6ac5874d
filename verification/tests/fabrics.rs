//! Connection and grain-transfer scenarios driving an initiator and a
//! target in one process, with the test acting as the packet-carrying
//! runtime.

use std::time::{Duration, SystemTime};

use mxl::{
    EndpointAddress, FabricsInstance, FlowReader, FlowWriter, GrainInitiator, GrainTarget,
    InitiatorConfig, Region, TargetConfig, TargetInfo,
};

/// Eight spans standing for a flow buffer of depth 8.
fn spans() -> Vec<Region> {
    (0u64..8u64)
        .map(|i| Region {
            base: 0x1000 + i * 0x1000,
            len: 0x1000,
        })
        .collect()
}

/// Carries queued packets both ways between the two sessions.
fn route(initiator: &mut GrainInitiator, target: &mut GrainTarget) {
    for p in initiator.take_outgoing() {
        target.deliver(p);
    }
    for p in target.take_outgoing() {
        initiator.deliver(p);
    }
}

fn build_target(instance: &mut FabricsInstance, provider: &str) -> (GrainTarget, TargetInfo) {
    let flow_writer = FlowWriter::new(spans());
    let provider = instance.provider_from_str(provider).unwrap();
    let regions = instance.regions_from_writer(&flow_writer).unwrap();
    let config = TargetConfig::new(
        EndpointAddress {
            node: Some("127.0.0.1".to_string()),
            service: Some("0".to_string()),
        },
        provider,
        regions,
        false,
    );
    let mut target = instance.create_target().unwrap().into_grain_target();
    let info = target.setup(config).unwrap();
    (target, info)
}

fn build_initiator(instance: &mut FabricsInstance, provider: &str) -> GrainInitiator {
    let flow_reader = FlowReader::new(spans());
    let provider = instance.provider_from_str(provider).unwrap();
    let regions = instance.regions_from_reader(&flow_reader).unwrap();
    let config = InitiatorConfig::new(
        EndpointAddress {
            node: Some("127.0.0.1".to_string()),
            service: Some("0".to_string()),
        },
        provider,
        regions,
        false,
    );
    let mut initiator = instance.create_initiator().unwrap().into_grain_initiator();
    initiator.setup(config).unwrap();
    initiator
}

fn wait_for_connection(
    target: &mut GrainTarget,
    initiator: &mut GrainInitiator,
    timeout: Duration,
) -> bool {
    let now = SystemTime::now();
    loop {
        let _ = target.read_non_blocking();
        route(initiator, target);
        if initiator.make_progress(250).is_ok() {
            // Connected!
            return true;
        }
        route(initiator, target);

        if now.elapsed().unwrap() > timeout {
            return false;
        }
    }
}

fn post_transfer(
    initiator: &mut GrainInitiator,
    grain_index: u64,
    start_slice: u16,
    end_slice: u16,
    slice_count: u16,
    timeout: Duration,
) -> bool {
    let now = SystemTime::now();
    loop {
        let _ = initiator.make_progress_non_blocking();
        if initiator
            .transfer(grain_index, start_slice, end_slice, slice_count)
            .is_ok()
        {
            return true;
        }
        if now.elapsed().unwrap() > timeout {
            return false;
        }
    }
}

fn wait_for_completion(
    target: &mut GrainTarget,
    initiator: &mut GrainInitiator,
    timeout: Duration,
) -> bool {
    let now = SystemTime::now();
    loop {
        let _ = initiator.make_progress_non_blocking();
        route(initiator, target);
        if target.read(250).is_ok() {
            // Completed!
            return true;
        }
        if now.elapsed().unwrap() > timeout {
            return false;
        }
    }
}

#[test]
fn test_fabrics_connection() {
    let mut instance = FabricsInstance::new();
    let (mut target, target_info) = build_target(&mut instance, "tcp");
    let mut initiator = build_initiator(&mut instance, "tcp");
    initiator.add_target(&target_info).unwrap();

    assert!(wait_for_connection(
        &mut target,
        &mut initiator,
        Duration::from_secs(5),
    ));
}

#[test]
fn test_fabrics_grain_transfer() {
    let mut instance = FabricsInstance::new();
    let (mut target, target_info) = build_target(&mut instance, "tcp");
    let mut initiator = build_initiator(&mut instance, "tcp");
    initiator.add_target(&target_info).unwrap();

    assert!(wait_for_connection(
        &mut target,
        &mut initiator,
        Duration::from_secs(5),
    ));

    assert!(post_transfer(
        &mut initiator,
        0,
        0,
        1080,
        1080,
        Duration::from_secs(5)
    ));
    assert!(wait_for_completion(
        &mut target,
        &mut initiator,
        Duration::from_secs(5)
    ));
}

/// The descriptor that went out of band as text attaches the target
/// it came from, and the transferred grain arrives with the exact
/// indices that were sent.
#[test]
fn grain_transfer_through_encoded_descriptor() {
    let mut instance = FabricsInstance::new();
    let (mut target, target_info) = build_target(&mut instance, "tcp");
    let text = target_info.to_string();
    let reparsed = instance.target_info_from_str(&text).unwrap();
    assert_eq!(reparsed, target_info);

    let mut initiator = build_initiator(&mut instance, "tcp");
    initiator.add_target(&reparsed).unwrap();
    assert!(wait_for_connection(
        &mut target,
        &mut initiator,
        Duration::from_secs(5),
    ));
    assert!(post_transfer(
        &mut initiator,
        7,
        2,
        719,
        720,
        Duration::from_secs(5)
    ));

    let now = SystemTime::now();
    loop {
        let _ = initiator.make_progress_non_blocking();
        route(&mut initiator, &mut target);
        if let Ok(grain) = target.read(250) {
            assert_eq!(grain.grain_index, 7);
            assert_eq!(grain.slice_index, 719);
            break;
        }
        assert!(now.elapsed().unwrap() <= Duration::from_secs(5));
    }
}

/// Carries queued packets between the initiator and two targets; each
/// target keeps only the packets addressed to it.
fn route_pair(initiator: &mut GrainInitiator, a: &mut GrainTarget, b: &mut GrainTarget) {
    for p in initiator.take_outgoing() {
        a.deliver(p);
        b.deliver(p);
    }
    for p in a.take_outgoing() {
        initiator.deliver(p);
    }
    for p in b.take_outgoing() {
        initiator.deliver(p);
    }
}

/// A transfer reaches every currently attached target: one whose
/// handshake is still in flight receives the grain right after its
/// connection completes, while a removed, draining target receives no
/// new grain.
#[test]
fn transfer_reaches_every_attached_target() {
    let mut instance = FabricsInstance::new();
    let (mut first, first_info) = build_target(&mut instance, "tcp");
    let (mut second, second_info) = build_target(&mut instance, "tcp");
    let mut initiator = build_initiator(&mut instance, "tcp");

    initiator.add_target(&first_info).unwrap();
    assert!(wait_for_connection(
        &mut first,
        &mut initiator,
        Duration::from_secs(5),
    ));

    // The second target is attached, its handshake not yet driven.
    initiator.add_target(&second_info).unwrap();
    initiator.transfer(4, 0, 9, 9).unwrap();

    let mut first_got = false;
    let mut second_got = false;
    for _ in 0..64 {
        let _ = initiator.make_progress_non_blocking();
        route_pair(&mut initiator, &mut first, &mut second);
        if let Ok(grain) = first.read_non_blocking() {
            assert_eq!((grain.grain_index, grain.slice_index), (4, 9));
            first_got = true;
        }
        if let Ok(grain) = second.read_non_blocking() {
            assert_eq!((grain.grain_index, grain.slice_index), (4, 9));
            second_got = true;
        }
        route_pair(&mut initiator, &mut first, &mut second);
        if first_got && second_got {
            break;
        }
    }
    assert!(first_got && second_got);

    // Once the second target's removal is draining, a new transfer
    // goes to the first target only.
    initiator.remove_target(&second_info).unwrap();
    initiator.transfer(5, 0, 9, 9).unwrap();
    let mut first_got_next = false;
    for _ in 0..64 {
        let _ = initiator.make_progress_non_blocking();
        route_pair(&mut initiator, &mut first, &mut second);
        if let Ok(grain) = first.read_non_blocking() {
            assert_eq!((grain.grain_index, grain.slice_index), (5, 9));
            first_got_next = true;
        }
        assert!(second.read_non_blocking().is_err(), "draining target got data");
        route_pair(&mut initiator, &mut first, &mut second);
        if first_got_next {
            break;
        }
    }
    assert!(first_got_next);
}

/// Removing a target mid-transfer keeps progress callable until the
/// shutdown handshake resolves, and destroying afterwards is safe —
/// twice.
#[test]
fn remove_target_mid_transfer_then_destroy() {
    let mut instance = FabricsInstance::new();
    let (mut target, target_info) = build_target(&mut instance, "tcp");
    let mut initiator = build_initiator(&mut instance, "tcp");
    initiator.add_target(&target_info).unwrap();
    assert!(wait_for_connection(
        &mut target,
        &mut initiator,
        Duration::from_secs(5),
    ));

    // A transfer is queued but not yet on the wire when the target is
    // removed.
    initiator.transfer(3, 0, 100, 100).unwrap();
    initiator.remove_target(&target_info).unwrap();
    // Removing it again while the shutdown drains is a no-op.
    initiator.remove_target(&target_info).unwrap();

    // Progress keeps being safe to call until the shutdown handshake
    // resolves.
    let now = SystemTime::now();
    loop {
        let _ = initiator.make_progress_non_blocking();
        route(&mut initiator, &mut target);
        let _ = target.read_non_blocking();
        route(&mut initiator, &mut target);
        if initiator.remove_target(&target_info) == Err(mxl::Error::UnknownTarget) {
            // The link is fully detached.
            break;
        }
        assert!(now.elapsed().unwrap() <= Duration::from_secs(5));
    }

    initiator.destroy();
    initiator.destroy();
    target.destroy();
    target.destroy();
}
