use fudge_core::inherent::timestamp::{
    CurrTimeProvider, Error, InstanceId, Instances, ProvideError, TimestampInherentError,
};
use std::time::Duration;

/// Sat Jan 01 2022 00:00:00 GMT+0000
const START_DATE: u64 = 1640995200u64;

fn millis(d: Duration) -> u128 {
    d.as_millis()
}

fn secs(t: u64) -> u64 {
    Duration::from_millis(t).as_secs()
}

#[test]
fn steps_work_correctly() {
    const DELTA: u64 = 12u64;

    let mut instances = Instances::new();
    let delta = Duration::from_secs(DELTA);
    let instance_id = CurrTimeProvider::create_instance(
        &mut instances,
        millis(delta),
        Some(millis(Duration::from_secs(START_DATE))),
    )
    .unwrap();
    let time = CurrTimeProvider::get_instance(&instances, instance_id).unwrap();

    assert_eq!(secs(time.current_time()), START_DATE);

    // Progress time by delta
    time.update_time(&mut instances).unwrap();
    let time = CurrTimeProvider::get_instance(&instances, instance_id).unwrap();
    assert_eq!(secs(time.current_time()), START_DATE + delta.as_secs() as u64);

    // Progress time by delta
    time.update_time(&mut instances).unwrap();
    let time = CurrTimeProvider::get_instance(&instances, instance_id).unwrap();
    assert_eq!(secs(time.current_time()), START_DATE + 2 * delta.as_secs() as u64);
}

#[test]
fn instances_work_correctly() {
    const DELTA_A: u64 = 12u64;
    const DELTA_B: u64 = 6u64;
    let _ = DELTA_B;

    let mut instances = Instances::new();
    let start = Some(millis(Duration::from_secs(START_DATE)));

    let delta_a = Duration::from_secs(DELTA_A);
    let instance_a = CurrTimeProvider::create_instance(&mut instances, millis(delta_a), start).unwrap();
    let time_a =
        CurrTimeProvider::get_instance(&instances, instance_a).expect("Instance is initialized. qed");

    let delta_b = Duration::from_secs(DELTA_A);
    let instance_b = CurrTimeProvider::create_instance(&mut instances, millis(delta_b), start).unwrap();
    let time_b =
        CurrTimeProvider::get_instance(&instances, instance_b).expect("Instance is initialized. qed");

    assert_eq!(secs(time_a.current_time()), START_DATE);
    assert_eq!(secs(time_b.current_time()), START_DATE);

    // Progress time by delta
    time_a.update_time(&mut instances).unwrap();
    let time_a =
        CurrTimeProvider::get_instance(&instances, instance_a).expect("Instance is initialized. qed");
    time_b.update_time(&mut instances).unwrap();
    let time_b =
        CurrTimeProvider::get_instance(&instances, instance_b).expect("Instance is initialized. qed");
    assert_eq!(secs(time_a.current_time()), START_DATE + delta_a.as_secs() as u64);
    assert_eq!(secs(time_b.current_time()), START_DATE + delta_b.as_secs() as u64);

    // Progress time by delta
    time_a.update_time(&mut instances).unwrap();
    let time_a =
        CurrTimeProvider::get_instance(&instances, instance_a).expect("Instance is initialized. qed");
    time_b.update_time(&mut instances).unwrap();
    let time_b =
        CurrTimeProvider::get_instance(&instances, instance_b).expect("Instance is initialized. qed");
    assert_eq!(secs(time_a.current_time()), START_DATE + 2 * delta_a.as_secs() as u64);
    assert_eq!(secs(time_b.current_time()), START_DATE + 2 * delta_b.as_secs() as u64);

    let time_a_2 =
        CurrTimeProvider::get_instance(&instances, instance_a).expect("Instance is available. qed");
    let time_b_2 =
        CurrTimeProvider::get_instance(&instances, instance_b).expect("Instance is available. qed");

    assert_eq!(time_a.current_time(), time_a_2.current_time());
    assert_eq!(time_b.current_time(), time_b_2.current_time());
}

#[test]
fn identifiers_are_handed_out_in_order() {
    let mut instances = Instances::new();
    let a = CurrTimeProvider::create_instance(&mut instances, 1, Some(0)).unwrap();
    let b = CurrTimeProvider::create_instance(&mut instances, 1, Some(0)).unwrap();
    assert_eq!(a, InstanceId(0));
    assert_eq!(b, InstanceId(1));
}

#[test]
fn reading_is_start_plus_ticks_times_delta() {
    let mut instances = Instances::new();
    let id = CurrTimeProvider::create_instance(&mut instances, 250, Some(1_000)).unwrap();
    for _ in 0..4 {
        let clock = CurrTimeProvider::get_instance(&instances, id).unwrap();
        clock.update_time(&mut instances).unwrap();
    }
    let clock = CurrTimeProvider::get_instance(&instances, id).unwrap();
    assert_eq!(clock.current_time(), 2_000);
}

#[test]
fn reading_saturates_at_u64_max() {
    let mut instances = Instances::new();
    let id = CurrTimeProvider::create_instance(&mut instances, u128::MAX, Some(u64::MAX as u128 - 1)).unwrap();
    let clock = CurrTimeProvider::get_instance(&instances, id).unwrap();
    assert_eq!(clock.current_time(), u64::MAX - 1);
    clock.update_time(&mut instances).unwrap();
    let clock = CurrTimeProvider::get_instance(&instances, id).unwrap();
    assert_eq!(clock.current_time(), u64::MAX);
}

#[test]
fn missing_instance_is_reported() {
    let instances = Instances::new();
    match CurrTimeProvider::get_instance(&instances, InstanceId(7)) {
        Err(Error::InstanceNotFound(id)) => assert_eq!(id, InstanceId(7)),
        _ => panic!("expected InstanceNotFound"),
    }
}

#[test]
fn force_new_resets_an_instance() {
    let mut instances = Instances::new();
    let id = CurrTimeProvider::create_instance(&mut instances, 10, Some(100)).unwrap();
    let clock = CurrTimeProvider::get_instance(&instances, id).unwrap();
    clock.update_time(&mut instances).unwrap();
    CurrTimeProvider::force_new(&mut instances, id, 5, Some(7)).unwrap();
    let clock = CurrTimeProvider::get_instance(&instances, id).unwrap();
    assert_eq!(clock.current_time(), 7);
    clock.update_time(&mut instances).unwrap();
    let clock = CurrTimeProvider::get_instance(&instances, id).unwrap();
    assert_eq!(clock.current_time(), 12);
}

#[test]
fn force_new_needs_an_existing_instance() {
    let mut instances = Instances::new();
    match CurrTimeProvider::force_new(&mut instances, InstanceId(3), 5, Some(7)) {
        Err(Error::InstanceNotFound(id)) => assert_eq!(id, InstanceId(3)),
        _ => panic!("expected InstanceNotFound"),
    }
}

#[test]
fn instance_without_start_begins_now() {
    let mut instances = Instances::new();
    let id = CurrTimeProvider::create_instance(&mut instances, 6_000, None).unwrap();
    let clock = CurrTimeProvider::get_instance(&instances, id).unwrap();
    // later than Sat Jan 01 2022
    assert!(secs(clock.current_time()) > START_DATE);
}

#[test]
fn updating_one_instance_leaves_the_other() {
    let mut instances = Instances::new();
    let a = CurrTimeProvider::create_instance(&mut instances, 10, Some(0)).unwrap();
    let b = CurrTimeProvider::create_instance(&mut instances, 10, Some(0)).unwrap();
    let clock_a = CurrTimeProvider::get_instance(&instances, a).unwrap();
    clock_a.update_time(&mut instances).unwrap();
    assert_eq!(CurrTimeProvider::get_instance(&instances, a).unwrap().current_time(), 10);
    assert_eq!(CurrTimeProvider::get_instance(&instances, b).unwrap().current_time(), 0);
}

#[test]
fn providing_files_the_reading_and_ticks() {
    let mut instances = Instances::new();
    let id = CurrTimeProvider::create_instance(&mut instances, 12_000, Some(1_000)).unwrap();
    let clock = CurrTimeProvider::get_instance(&instances, id).unwrap();
    let mut data = sp_inherents::InherentData::new();
    clock.provide_inherent_data(&mut instances, &mut data).unwrap();
    let filed: Option<sp_timestamp::Timestamp> = data.get_data(&sp_timestamp::INHERENT_IDENTIFIER).unwrap();
    assert_eq!(filed.unwrap().as_millis(), 1_000);
    assert_eq!(CurrTimeProvider::get_instance(&instances, id).unwrap().current_time(), 13_000);

    // A second timestamp is refused and the clock stays put.
    match clock.provide_inherent_data(&mut instances, &mut data) {
        Err(ProvideError::InherentData(_)) => {},
        _ => panic!("expected an inherent data error"),
    }
    assert_eq!(CurrTimeProvider::get_instance(&instances, id).unwrap().current_time(), 13_000);
}

#[test]
fn providing_for_an_unknown_instance_fails_after_filing() {
    let mut instances = Instances::new();
    let id = CurrTimeProvider::create_instance(&mut instances, 1, Some(5)).unwrap();
    let clock = CurrTimeProvider::get_instance(&instances, id).unwrap();
    let mut other = Instances::new();
    let mut data = sp_inherents::InherentData::new();
    match clock.provide_inherent_data(&mut other, &mut data) {
        Err(ProvideError::Clock(Error::InstanceNotFound(i))) => assert_eq!(i, id),
        _ => panic!("expected a clock error"),
    }
    let filed: Option<u64> = data.get_data(&sp_timestamp::INHERENT_IDENTIFIER).unwrap();
    assert_eq!(filed, Some(5));
}

#[test]
fn handling_errors_of_the_timestamp_inherent() {
    let mut instances = Instances::new();
    let id = CurrTimeProvider::create_instance(&mut instances, 1, Some(5)).unwrap();
    let clock = CurrTimeProvider::get_instance(&instances, id).unwrap();
    assert_eq!(clock.try_handle_error(b"babeslot", &[0]), None);
    assert_eq!(clock.try_handle_error(b"timstap0", &[0]), Some(Err(TimestampInherentError::TooEarly)));
    assert_eq!(
        clock.try_handle_error(b"timstap0", &[1]),
        Some(Err(TimestampInherentError::TooFarInFuture))
    );
    assert_eq!(clock.try_handle_error(b"timstap0", &[9]), None);
    assert_eq!(clock.try_handle_error(b"timstap0", &[]), None);
}

#[test]
fn a_clock_knows_its_identifier_and_ticks() {
    let mut instances = Instances::new();
    let _ = CurrTimeProvider::create_instance(&mut instances, 5, Some(0)).unwrap();
    let id = CurrTimeProvider::create_instance(&mut instances, 5, Some(0)).unwrap();
    let clock = CurrTimeProvider::get_instance(&instances, id).unwrap();
    assert_eq!(clock.instance_id(), id);
    assert_eq!(clock.instance_id(), InstanceId(1));
    assert_eq!(clock.ticks(), 0);
    clock.update_time(&mut instances).unwrap();
    clock.update_time(&mut instances).unwrap();
    assert_eq!(CurrTimeProvider::get_instance(&instances, id).unwrap().ticks(), 2);
    assert_eq!(clock.ticks(), 0);
}

#[test]
fn created_identifiers_are_fresh_and_earlier_clocks_stay() {
    let mut instances = Instances::new();
    let a = CurrTimeProvider::create_instance(&mut instances, 12, Some(1_000)).unwrap();
    let clock_a = CurrTimeProvider::get_instance(&instances, a).unwrap();
    clock_a.update_time(&mut instances).unwrap();
    let b = CurrTimeProvider::create_instance(&mut instances, 6, Some(2_000)).unwrap();
    assert_ne!(a, b);
    let clock_b = CurrTimeProvider::get_instance(&instances, b).unwrap();
    assert_eq!(clock_b.instance_id(), b);
    assert_eq!(clock_b.current_time(), 2_000);
    assert_eq!(CurrTimeProvider::get_instance(&instances, a).unwrap().current_time(), 1_012);
    // A stale copy still advances the stored clock, not its own tick count.
    clock_a.update_time(&mut instances).unwrap();
    assert_eq!(CurrTimeProvider::get_instance(&instances, a).unwrap().ticks(), 2);
    assert_eq!(CurrTimeProvider::get_instance(&instances, b).unwrap().current_time(), 2_000);
}
