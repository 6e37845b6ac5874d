//! Session lifecycle behaviour: polling, cancellation, configuration
//! errors, and idempotent destruction.

use mxl::{
    EndpointAddress, Error, FabricsInstance, FlowReader, FlowWriter, GrainInitiator, GrainTarget,
    InitiatorConfig, Provider, Region, Regions, TargetConfig, TargetInfo,
};

fn one_span() -> Vec<Region> {
    vec![Region {
        base: 0x4000,
        len: 0x1000,
    }]
}

fn anonymous_endpoint() -> EndpointAddress {
    EndpointAddress {
        node: None,
        service: None,
    }
}

fn ready_target(instance: &mut FabricsInstance) -> (GrainTarget, TargetInfo) {
    let writer = FlowWriter::new(one_span());
    let regions = instance.regions_from_writer(&writer).unwrap();
    let config = TargetConfig::new(anonymous_endpoint(), Provider::Shm, regions, false);
    let mut target = instance.create_target().unwrap().into_grain_target();
    let info = target.setup(config).unwrap();
    (target, info)
}

fn ready_initiator(instance: &mut FabricsInstance) -> GrainInitiator {
    let reader = FlowReader::new(one_span());
    let regions = instance.regions_from_reader(&reader).unwrap();
    let config = InitiatorConfig::new(anonymous_endpoint(), Provider::Shm, regions, false);
    let mut initiator = instance.create_initiator().unwrap().into_grain_initiator();
    initiator.setup(config).unwrap();
    initiator
}

/// With no data delivered, a read returns `NotReady` for any timeout
/// budget instead of blocking.
#[test]
fn read_with_no_data_is_not_ready_for_any_timeout() {
    let mut instance = FabricsInstance::new();
    let (mut target, _info) = ready_target(&mut instance);
    for timeout_millis in [0, 50, 1000] {
        assert_eq!(target.read(timeout_millis), Err(Error::NotReady));
    }
    assert_eq!(target.read_non_blocking(), Err(Error::NotReady));
}

/// A transfer never succeeds silently before a target connection is
/// established: it keeps reporting `NotReady` until progress has
/// completed the handshake.
#[test]
fn transfer_before_connection_is_not_ready() {
    let mut instance = FabricsInstance::new();
    let (mut target, info) = ready_target(&mut instance);
    let mut initiator = ready_initiator(&mut instance);

    // No target attached at all.
    assert_eq!(initiator.transfer(0, 0, 10, 10), Err(Error::NotReady));

    // Attached but the handshake has not completed.
    initiator.add_target(&info).unwrap();
    assert_eq!(initiator.transfer(0, 0, 10, 10), Err(Error::NotReady));

    // Drive the handshake to completion by hand.
    assert_eq!(initiator.make_progress(250), Err(Error::NotReady));
    for p in initiator.take_outgoing() {
        target.deliver(p);
    }
    assert_eq!(initiator.transfer(0, 0, 10, 10), Err(Error::NotReady));
    let _ = target.read_non_blocking();
    for p in target.take_outgoing() {
        initiator.deliver(p);
    }
    assert_eq!(initiator.transfer(0, 0, 10, 10), Err(Error::NotReady));
    assert_eq!(initiator.make_progress(250), Ok(()));

    // Connected: the transfer is accepted.
    assert_eq!(initiator.transfer(0, 0, 10, 10), Ok(()));
}

#[test]
fn double_destroy_is_a_no_op() {
    let mut instance = FabricsInstance::new();
    let (mut target, info) = ready_target(&mut instance);
    let mut initiator = ready_initiator(&mut instance);
    initiator.add_target(&info).unwrap();

    target.destroy();
    target.destroy();
    initiator.destroy();
    initiator.destroy();

    // A fresh, never-configured session may be destroyed twice as
    // well.
    let mut bare = instance.create_target().unwrap().into_grain_target();
    bare.destroy();
    bare.destroy();
}

#[test]
fn operations_after_destroy_report_invalid_state() {
    let mut instance = FabricsInstance::new();
    let (mut target, info) = ready_target(&mut instance);
    let mut initiator = ready_initiator(&mut instance);
    initiator.destroy();
    assert_eq!(initiator.make_progress(100), Err(Error::InvalidState));
    assert_eq!(initiator.add_target(&info), Err(Error::InvalidState));
    assert_eq!(initiator.transfer(0, 0, 1, 1), Err(Error::InvalidState));
    target.destroy();
    assert_eq!(target.read(100), Err(Error::InvalidState));
}

#[test]
fn read_before_setup_reports_invalid_state() {
    let mut instance = FabricsInstance::new();
    let mut target = instance.create_target().unwrap().into_grain_target();
    assert_eq!(target.read(0), Err(Error::InvalidState));
}

#[test]
fn progress_before_setup_is_a_safe_no_op() {
    let mut instance = FabricsInstance::new();
    let mut initiator = instance.create_initiator().unwrap().into_grain_initiator();
    assert_eq!(initiator.make_progress(100), Err(Error::NotReady));
    assert_eq!(initiator.make_progress_non_blocking(), Err(Error::NotReady));
}

#[test]
fn cancellation_interrupts_polls_promptly() {
    let mut instance = FabricsInstance::new();
    let (mut target, info) = ready_target(&mut instance);
    let mut initiator = ready_initiator(&mut instance);
    initiator.add_target(&info).unwrap();

    target.cancel();
    assert_eq!(target.read(60_000), Err(Error::Interrupted));
    initiator.cancel();
    assert_eq!(initiator.make_progress(60_000), Err(Error::Interrupted));
}

#[test]
fn setup_twice_fails() {
    let mut instance = FabricsInstance::new();
    let (mut target, _info) = ready_target(&mut instance);
    let writer = FlowWriter::new(one_span());
    let regions = instance.regions_from_writer(&writer).unwrap();
    let config = TargetConfig::new(anonymous_endpoint(), Provider::Shm, regions, false);
    assert_eq!(target.setup(config), Err(Error::SetupFailed));
}

#[test]
fn setup_rejects_empty_regions() {
    let mut instance = FabricsInstance::new();
    let regions = Regions::new(Vec::new());
    let config = TargetConfig::new(anonymous_endpoint(), Provider::Shm, regions, false);
    let mut target = instance.create_target().unwrap().into_grain_target();
    assert_eq!(target.setup(config), Err(Error::InvalidConfig));
}

#[test]
fn setup_rejects_released_regions() {
    let mut instance = FabricsInstance::new();
    let mut regions = Regions::new(one_span());
    regions.release();
    // Releasing again is a no-op, never a double free.
    regions.release();
    let config = InitiatorConfig::new(anonymous_endpoint(), Provider::Shm, regions, false);
    let mut initiator = instance.create_initiator().unwrap().into_grain_initiator();
    assert_eq!(initiator.setup(config), Err(Error::InvalidConfig));
}

#[test]
fn closed_flow_buffer_reports_buffer_unavailable() {
    let instance = FabricsInstance::new();
    let mut reader = FlowReader::new(one_span());
    reader.close();
    assert!(matches!(
        instance.regions_from_reader(&reader),
        Err(Error::BufferUnavailable)
    ));
    let mut writer = FlowWriter::new(one_span());
    writer.close();
    assert!(matches!(
        instance.regions_from_writer(&writer),
        Err(Error::BufferUnavailable)
    ));
}

#[test]
fn invalid_slice_range_is_rejected() {
    let mut instance = FabricsInstance::new();
    let mut initiator = ready_initiator(&mut instance);
    // An inverted range.
    assert_eq!(initiator.transfer(0, 5, 2, 10), Err(Error::InvalidRange));
    // A bound beyond the flow's slice count.
    assert_eq!(initiator.transfer(0, 0, 11, 10), Err(Error::InvalidRange));
    assert_eq!(initiator.transfer(0, 11, 12, 10), Err(Error::InvalidRange));
}

/// The slice range of a transfer is held against the flow's slice
/// count: a bound marks how far through the grain the transfer
/// reaches, so the full grain ends exactly at the count, and anything
/// past it is out of range.
#[test]
fn slice_range_validation_against_the_flow() {
    assert_eq!(mxl::validate_slice_range(0, 719, 720), Ok(()));
    assert_eq!(mxl::validate_slice_range(0, 720, 720), Ok(()));
    assert_eq!(mxl::validate_slice_range(719, 719, 720), Ok(()));
    assert_eq!(
        mxl::validate_slice_range(5, 2, 720),
        Err(Error::InvalidRange)
    );
    assert_eq!(
        mxl::validate_slice_range(0, 721, 720),
        Err(Error::InvalidRange)
    );
    assert_eq!(mxl::validate_slice_range(1, 1, 0), Err(Error::InvalidRange));
}

#[test]
fn duplicate_and_unknown_targets_are_rejected() {
    let mut instance = FabricsInstance::new();
    let (_target, info) = ready_target(&mut instance);
    let (_other, other_info) = ready_target(&mut instance);
    let mut initiator = ready_initiator(&mut instance);

    initiator.add_target(&info).unwrap();
    assert_eq!(initiator.add_target(&info), Err(Error::DuplicateTarget));
    assert_eq!(
        initiator.remove_target(&other_info),
        Err(Error::UnknownTarget)
    );
}
