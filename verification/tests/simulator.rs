use fake_luxury_api::data::get_vehicles;
use fake_luxury_api::decimal::Decimal;
use fake_luxury_api::errors::ResponseError;
use fake_luxury_api::simulator::actor::{start, Command, Event, Reply, Simulator, StreamSource};
use fake_luxury_api::simulator::server::{
    drive_leg, get_updated_charge_state, get_updated_drive_state, get_vehicle_data,
    maybe_sleep, maybe_update_charge, maybe_update_drive, maybe_wake_up,
};
use fake_luxury_api::simulator::types::{
    whole_seconds, SimulationChargeState, SimulationDriveState, SimulationState,
};
use fake_luxury_api::simulator::{settle, settle_subscription, Exchange, SimulationStateEnum};
use fake_luxury_api::streaming::{DataError, ErrorType};
use fake_luxury_api::types::{
    ChargingStateEnum, ShiftState, VehicleGuid, VehicleId, VehicleStateEnum,
};
use fake_luxury_api::vehicle_data::VehicleData;
use fake_luxury_api::vehicles::Vehicle;

const T0: i64 = 1_700_000_000_000;

fn simulator() -> Simulator {
    let vehicles = get_vehicles();
    start(&vehicles[1], 0, T0)
}

fn command(sim: &mut Simulator, command: Command, now: u64) -> Reply {
    sim.step(Event::Command(command), now, T0 + now as i64).reply
}

#[test]
fn a_new_vehicle_is_idle_with_a_battery_at_42_percent() {
    let sim = simulator();
    assert_eq!(sim.ss, SimulationState::Idle { sleep_time: 60_000 });
    assert!(!sim.streaming);
    assert_eq!(sim.data.id, VehicleId::new(123_456_000));
    assert_eq!(sim.data.vehicle_id, VehicleGuid::new(999_456_000));
    assert_eq!(sim.data.vin, "5YJ3E1EA7JF000000");
    assert_eq!(sim.data.user_id, 800_001);
    assert_eq!(sim.data.access_type, "OWNER");
    assert_eq!(sim.data.tokens, vec!["4f993c5b9e2b937b", "7a3153b1bbb48a96"]);
    assert_eq!(sim.data.state, VehicleStateEnum::Online);
    assert_eq!(sim.data.api_version, 54);
    assert_eq!(sim.data.charge_state.battery_level, 42);
    assert_eq!(sim.data.charge_state.battery_range, Decimal::from_units(84));
    assert_eq!(sim.data.charge_state.charge_energy_added, Decimal::from_micros(48_450_000));
    assert_eq!(sim.data.charge_state.charging_state, ChargingStateEnum::Disconnected);
    // Records carry whole seconds.
    assert_eq!(sim.data.charge_state.timestamp, 1_700_000_000);
    assert_eq!(sim.data.drive_state.latitude, Some(Decimal::from_micros(37_776_549)));
    assert_eq!(sim.data.drive_state.longitude, Some(Decimal::from_micros(-122_419_541)));
    assert_eq!(sim.data.drive_state.speed, Some(Decimal::from_units(0)));
    assert_eq!(sim.data.drive_state.shift_state, None);
    assert_eq!(sim.data.climate_state.inside_temp, Decimal::from_micros(38_400_000));
    assert_eq!(sim.data.vehicle_config.car_type, "modely");
    assert_eq!(sim.data.vehicle_state.vehicle_name, Some("My Model 3".to_string()));
    assert_eq!(sim.data.vehicle_state.media_info.now_playing_title, "PBS Newshour");
    assert_eq!(sim.data.vehicle_state.tpms_last_seen_pressure_time_fl, Some(1_700_000_000));
    assert_eq!(sim.data.elevation, 0);
    let again = get_vehicle_data(&get_vehicles()[1], 1_700_000_000);
    assert_eq!(again, sim.data);
}

#[test]
fn wake_transitions() {
    let mut sim = simulator();
    // An idle vehicle is awake.
    assert_eq!(command(&mut sim, Command::WakeUp, 1_000), Reply::WakeUp(Ok(())));
    assert_eq!(sim.ss, SimulationState::Idle { sleep_time: 60_000 });

    let out = sim.step(
        Event::Command(Command::Simulate(SimulationStateEnum::Sleeping)),
        2_000,
        T0,
    );
    assert_eq!(out.reply, Reply::Simulate(Ok(())));
    assert_eq!(out.state_change, Some(SimulationStateEnum::Sleeping));
    assert_eq!(sim.ss, SimulationState::Sleeping { wake_up_time: None });
    assert_eq!(sim.data.state, VehicleStateEnum::Offline);
    assert_eq!(maybe_wake_up(&sim.ss), None);

    // A sleeping vehicle is not available, and is on its way in a minute.
    assert_eq!(
        command(&mut sim, Command::WakeUp, 3_000),
        Reply::WakeUp(Err(ResponseError::DeviceNotAvailable))
    );
    assert_eq!(sim.ss, SimulationState::Sleeping { wake_up_time: Some(63_000) });
    assert_eq!(maybe_wake_up(&sim.ss), Some(63_000));
    assert_eq!(
        command(&mut sim, Command::GetVehicleData, 4_000),
        Reply::VehicleData(Err(ResponseError::DeviceNotAvailable))
    );
    // Asking again does not put the wake-up off.
    assert_eq!(
        command(&mut sim, Command::WakeUp, 5_000),
        Reply::WakeUp(Err(ResponseError::DeviceNotAvailable))
    );
    assert_eq!(sim.ss, SimulationState::Sleeping { wake_up_time: Some(63_000) });

    let out = sim.step(Event::Wake, 63_000, T0);
    assert_eq!(out.reply, Reply::Nothing);
    assert_eq!(out.state_change, Some(SimulationStateEnum::Idle));
    assert_eq!(sim.ss, SimulationState::Idle { sleep_time: 123_000 });
    assert_eq!(sim.data.state, VehicleStateEnum::Online);

    match command(&mut sim, Command::GetVehicleData, 64_000) {
        Reply::VehicleData(Ok(data)) => {
            assert_eq!(data, VehicleData::from(&sim.data));
            assert_eq!(data.id, VehicleId::new(123_456_000));
            assert!(data.charge_state.is_some());
        }
        other => panic!("{other:?}"),
    }
}

#[test]
fn an_idle_vehicle_falls_asleep_after_a_minute_without_events() {
    let mut sim = simulator();
    assert_eq!(maybe_sleep(&sim.ss), Some(60_000));
    // A command does not put the sleep off.
    command(&mut sim, Command::WatchState, 30_000);
    assert_eq!(maybe_sleep(&sim.ss), Some(60_000));
    // Entering the idle state anew does.
    command(&mut sim, Command::Simulate(SimulationStateEnum::Idle), 40_000);
    assert_eq!(maybe_sleep(&sim.ss), Some(100_000));
    assert_eq!(sim.ss.update_sleep_time(50_000), SimulationState::Idle { sleep_time: 110_000 });
    let out = sim.step(Event::Sleep, 100_000, T0);
    assert_eq!(sim.ss, SimulationState::Sleeping { wake_up_time: None });
    assert_eq!(out.state_change, Some(SimulationStateEnum::Sleeping));
    assert!(!out.exit);
}

#[test]
fn a_vehicle_that_may_not_sleep_stays_idle() {
    let mut sim = simulator();
    let out = sim.step(
        Event::Command(Command::Simulate(SimulationStateEnum::IdleNoSleep)),
        1_000,
        T0,
    );
    assert_eq!(out.state_change, Some(SimulationStateEnum::IdleNoSleep));
    assert_eq!(sim.ss, SimulationState::IdleNoSleep);
    assert_eq!(maybe_sleep(&sim.ss), None);
    let before = simulator_copy(&sim);
    let out = sim.step(Event::Sleep, 100_000, T0);
    assert_eq!(out.reply, Reply::Nothing);
    assert_eq!(out.state_change, None);
    assert_eq!(sim, before);
}

fn simulator_copy(sim: &Simulator) -> Simulator {
    let mut copy = start(&get_vehicles()[1], 0, T0);
    copy.ss = sim.ss;
    copy.streaming = sim.streaming;
    copy.data.state = sim.data.state.clone();
    copy.data.charge_state = sim.data.charge_state.clone();
    copy.data.drive_state = sim.data.drive_state.clone();
    copy.data.elevation = sim.data.elevation;
    copy
}

#[test]
fn a_timer_that_is_not_awaited_changes_nothing() {
    for event in [
        Event::DriveTick { latitude: Decimal::from_units(1), longitude: Decimal::from_units(2) },
        Event::ChargeTick,
        Event::Wake,
    ] {
        let mut sim = simulator();
        let before = simulator_copy(&sim);
        let out = sim.step(event, 5_000, T0 + 5_000);
        assert_eq!(sim, before);
        assert_eq!(out.reply, Reply::Nothing);
        assert_eq!(out.sample, None);
        assert_eq!(out.state_change, None);
        assert!(!out.close_stream);
        assert!(!out.exit);
    }
}

#[test]
fn the_end_of_commands_asks_to_stop() {
    let mut sim = simulator();
    let before = simulator_copy(&sim);
    let out = sim.step(Event::Closed, 5_000, T0);
    assert!(out.exit);
    assert_eq!(sim, before);
}

#[test]
fn driving_produces_samples() {
    let mut sim = simulator();
    assert_eq!(
        command(&mut sim, Command::Subscribe, 1_000),
        Reply::Subscribe(Ok(StreamSource::New))
    );
    assert!(sim.streaming);
    assert_eq!(
        command(&mut sim, Command::Subscribe, 1_500),
        Reply::Subscribe(Ok(StreamSource::Existing))
    );
    let out = sim.step(
        Event::Command(Command::Simulate(SimulationStateEnum::Driving)),
        2_000,
        T0 + 2_000,
    );
    assert_eq!(out.state_change, Some(SimulationStateEnum::Driving));
    assert_eq!(out.sample, None);
    let drive = SimulationDriveState {
        time: 2_000,
        latitude: Decimal::from_micros(37_776_549),
        longitude: Decimal::from_micros(-122_419_541),
        heading: 0,
        speed: 60,
        battery_level: 42,
    };
    assert_eq!(sim.ss, SimulationState::Driving { state: drive, update_time: 3_000 });
    assert_eq!(maybe_update_drive(&sim.ss), Some((3_000, drive)));
    assert!(sim.ss.is_driving());

    let mut last = i64::MIN;
    for tick in 1..=3u64 {
        let now = 2_000 + tick * 1_000;
        let leg = drive_leg(&drive, now);
        assert_eq!(leg.distance, (tick as u128) * 60_000 * 1397 / 3125);
        let out = sim.step(
            Event::DriveTick {
                latitude: Decimal::from_micros(37_776_549 + tick as i64 * 241),
                longitude: Decimal::from_micros(-122_419_541),
            },
            now,
            T0 + now as i64,
        );
        let sample = out.sample.expect("a sample for the subscribers");
        assert_eq!(sample.id, VehicleGuid::new(999_456_000));
        assert_eq!(sample.time, T0 + now as i64);
        assert!(last <= sample.time);
        last = sample.time;
        assert_eq!(sample.speed, Some(Decimal::from_units(60)));
        assert_eq!(sample.shift_state, Some(ShiftState::Drive));
        assert_eq!(sample.power, Some(500));
        assert_eq!(sample.soc, Some(41));
        assert_eq!(sample.range, Some(Decimal::from_units(82)));
        assert_eq!(sample.est_lat, Some(Decimal::from_micros(37_776_549 + tick as i64 * 241)));
        assert_eq!(sample.odometer, Some(Decimal::from_units(0)));
        assert_eq!(sample.elevation, Some(0));
        assert_eq!(out.state_change, None);
        assert!(!out.close_stream);
        assert_eq!(
            sim.ss,
            SimulationState::Driving { state: drive, update_time: now + 1_000 }
        );
        // The sample carries milliseconds, the record whole seconds.
        assert_eq!(sim.data.drive_state.timestamp, 1_700_000_000 + now as i64 / 1_000);
        assert_eq!(sim.data.drive_state.gps_as_of, 1_700_000_000 + now as i64 / 1_000);
        assert_eq!(sim.data.charge_state.battery_level, 41);
    }
}

#[test]
fn nobody_is_told_of_a_drive_without_subscribers() {
    let mut sim = simulator();
    command(&mut sim, Command::Simulate(SimulationStateEnum::Driving), 0);
    let out = sim.step(
        Event::DriveTick { latitude: Decimal::from_units(1), longitude: Decimal::from_units(2) },
        1_000,
        T0,
    );
    assert_eq!(out.sample, None);
    assert_eq!(sim.data.drive_state.latitude, Some(Decimal::from_units(1)));
    assert_eq!(sim.data.drive_state.longitude, Some(Decimal::from_units(2)));
    assert_eq!(sim.data.drive_state.active_route_latitude, Decimal::from_units(1));
}

#[test]
fn distance_and_battery_of_a_drive() {
    let drive = SimulationDriveState {
        time: 10_000,
        latitude: Decimal::from_units(0),
        longitude: Decimal::from_units(0),
        heading: 90,
        speed: 60,
        battery_level: 42,
    };
    // A mile a minute: 1609.344 m after 60 s.
    assert_eq!(drive_leg(&drive, 70_000).distance, 1_609_344);
    assert_eq!(drive_leg(&drive, 70_000).heading, 90);
    assert_eq!(drive_leg(&drive, 10_000).distance, 0);
    // A clock that has gone back counts as no time.
    assert_eq!(drive_leg(&drive, 5_000).distance, 0);
    assert_eq!(drive_leg(&drive, 10_001).distance, 26);

    let sim = simulator();
    let ss = SimulationState::Driving { state: drive, update_time: 11_000 };
    let here = Decimal::from_units(1);
    // One kilometre is begun: one percent is gone.
    let (_, _, charge, next) =
        get_updated_drive_state(&sim.data, &ss, &drive, 11_000, T0, here, here);
    assert_eq!(charge.battery_level, 41);
    assert_eq!(charge.battery_range, Decimal::from_units(82));
    assert_eq!(charge.est_battery_range, Decimal::from_units(82));
    assert_eq!(charge.ideal_battery_range, Decimal::from_units(82));
    assert_eq!(charge.charge_amps, 48);
    assert_eq!(next, SimulationState::Driving { state: drive, update_time: 12_000 });
    // Nothing is gone before the drive has moved.
    let (_, elevation, charge, _) =
        get_updated_drive_state(&sim.data, &ss, &drive, 10_000, T0, here, here);
    assert_eq!(charge.battery_level, 42);
    assert_eq!(elevation, 0);
    // 42 km take 42 / 1.609344 minutes, that is 1565855 ms and a bit.
    let (_, _, charge, next) =
        get_updated_drive_state(&sim.data, &ss, &drive, 10_000 + 1_565_855, T0, here, here);
    assert_eq!(charge.battery_level, 0);
    assert_eq!(next, SimulationState::Driving { state: drive, update_time: 1_576_855 });
    let (drive_state, _, charge, next) =
        get_updated_drive_state(&sim.data, &ss, &drive, 10_000 + 1_565_856, T0, here, here);
    assert_eq!(charge.battery_level, 0);
    assert_eq!(next, SimulationState::Idle { sleep_time: 10_000 + 1_565_856 + 60_000 });
    assert_eq!(drive_state.speed, Some(Decimal::from_units(60)));
    assert_eq!(drive_state.power, Some(500));
    assert_eq!(drive_state.native_type, "wgs");
}

#[test]
fn a_spent_battery_ends_the_drive_and_the_stream() {
    let mut sim = simulator();
    command(&mut sim, Command::Subscribe, 0);
    command(&mut sim, Command::Simulate(SimulationStateEnum::Driving), 0);
    let out = sim.step(
        Event::DriveTick { latitude: Decimal::from_units(3), longitude: Decimal::from_units(4) },
        2_000_000,
        T0 + 2_000_000,
    );
    // The last sample still goes out, then the stream comes down.
    let sample = out.sample.expect("a last sample");
    assert_eq!(sample.soc, Some(0));
    assert_eq!(sample.speed, Some(Decimal::from_units(60)));
    assert!(out.close_stream);
    assert!(!sim.streaming);
    assert_eq!(out.state_change, Some(SimulationStateEnum::Idle));
    assert_eq!(sim.ss, SimulationState::Idle { sleep_time: 2_060_000 });
    assert_eq!(sim.data.charge_state.battery_level, 0);
    assert_eq!(sim.data.charge_state.battery_range, Decimal::from_units(0));
    // A vehicle that has stopped has no speed, gear or power.
    assert_eq!(sim.data.drive_state.speed, None);
    assert_eq!(sim.data.drive_state.shift_state, None);
    assert_eq!(sim.data.drive_state.power, None);
    assert_eq!(sim.data.drive_state.latitude, Some(Decimal::from_units(3)));
}

#[test]
fn stopping_a_drive_clears_what_belongs_to_driving() {
    let mut sim = simulator();
    command(&mut sim, Command::Subscribe, 0);
    command(&mut sim, Command::Simulate(SimulationStateEnum::Driving), 0);
    sim.step(
        Event::DriveTick { latitude: Decimal::from_units(3), longitude: Decimal::from_units(4) },
        1_000,
        T0,
    );
    assert_eq!(sim.data.drive_state.shift_state, Some(ShiftState::Drive));
    let out = sim.step(
        Event::Command(Command::Simulate(SimulationStateEnum::Idle)),
        1_500,
        T0,
    );
    assert_eq!(out.state_change, Some(SimulationStateEnum::Idle));
    assert_eq!(sim.data.drive_state.speed, None);
    assert_eq!(sim.data.drive_state.shift_state, None);
    assert_eq!(sim.data.drive_state.power, None);
    // The subscribers stay; they just hear nothing.
    assert!(sim.streaming);
    assert!(!out.close_stream);
}

#[test]
fn vehicle_disconnect_surfaces() {
    let mut sim = simulator();
    command(&mut sim, Command::Subscribe, 0);
    command(&mut sim, Command::Simulate(SimulationStateEnum::Driving), 0);
    let out = sim.step(
        Event::Command(Command::Simulate(SimulationStateEnum::Sleeping)),
        500,
        T0,
    );
    assert!(out.close_stream);
    assert!(!sim.streaming);
    assert_eq!(out.sample, None);
    assert_eq!(out.state_change, Some(SimulationStateEnum::Sleeping));
    // No drive is under way, so no further sample can come.
    let out = sim.step(
        Event::DriveTick { latitude: Decimal::from_units(3), longitude: Decimal::from_units(4) },
        1_000,
        T0,
    );
    assert_eq!(out.sample, None);
    // And nobody can subscribe to a sleeping vehicle.
    assert_eq!(
        command(&mut sim, Command::Subscribe, 2_000),
        Reply::Subscribe(Err(DataError::disconnected(VehicleGuid::new(999_456_000))))
    );
    assert!(!sim.streaming);
}

#[test]
fn charging_adds_ten_percent_a_minute() {
    let mut sim = simulator();
    let out = sim.step(
        Event::Command(Command::Simulate(SimulationStateEnum::Charging)),
        1_000,
        T0,
    );
    assert_eq!(out.state_change, Some(SimulationStateEnum::Charging));
    let charge = SimulationChargeState { time: 1_000, battery_level: 42 };
    assert_eq!(sim.ss, SimulationState::Charging { state: charge, update_time: 11_000 });
    assert_eq!(maybe_update_charge(&sim.ss), Some((11_000, charge)));

    let out = sim.step(Event::ChargeTick, 11_000, T0 + 11_000);
    assert_eq!(out.sample, None);
    assert_eq!(out.state_change, None);
    assert_eq!(sim.data.charge_state.battery_level, 43);
    assert_eq!(sim.data.charge_state.battery_range, Decimal::from_units(86));
    assert_eq!(sim.data.charge_state.charging_state, ChargingStateEnum::Charging);
    assert_eq!(sim.data.charge_state.charge_amps, 48);
    assert_eq!(sim.data.charge_state.timestamp, 1_700_000_011);
    // 57 percent to go at ten percent a minute: 0.095 hours.
    assert_eq!(sim.data.charge_state.time_to_full_charge, Some(Decimal::from_micros(95_000)));
    assert_eq!(sim.ss, SimulationState::Charging { state: charge, update_time: 21_000 });

    let out = sim.step(Event::ChargeTick, 61_000, T0 + 61_000);
    assert_eq!(out.state_change, None);
    assert_eq!(sim.data.charge_state.battery_level, 52);
    assert_eq!(sim.data.charge_state.time_to_full_charge, Some(Decimal::from_micros(80_000)));

    // 58 percent take 348 s.
    let out = sim.step(Event::ChargeTick, 348_999, T0);
    assert_eq!(out.state_change, None);
    assert_eq!(sim.data.charge_state.battery_level, 99);
    let out = sim.step(Event::ChargeTick, 349_000, T0);
    assert_eq!(out.state_change, Some(SimulationStateEnum::Idle));
    assert_eq!(sim.ss, SimulationState::Idle { sleep_time: 409_000 });
    assert_eq!(sim.data.charge_state.battery_level, 100);
    assert_eq!(sim.data.charge_state.battery_range, Decimal::from_units(200));
    assert_eq!(sim.data.charge_state.time_to_full_charge, None);
    // A vehicle that has stopped charging has no cable and no current.
    assert_eq!(sim.data.charge_state.charging_state, ChargingStateEnum::Disconnected);
    assert_eq!(sim.data.charge_state.charge_amps, 0);
}

#[test]
fn a_step_of_a_charge_by_itself() {
    let sim = simulator();
    let charge = SimulationChargeState { time: 0, battery_level: 95 };
    let ss = SimulationState::Charging { state: charge, update_time: 10_000 };
    let (record, next) = get_updated_charge_state(&sim.data, &ss, &charge, 29_999, T0 + 5);
    assert_eq!(record.battery_level, 99);
    assert_eq!(record.timestamp, T0 + 5);
    assert_eq!(record.charge_port_latch, "Engaged");
    assert_eq!(next, SimulationState::Charging { state: charge, update_time: 39_999 });
    let (record, next) = get_updated_charge_state(&sim.data, &ss, &charge, 30_000, T0);
    assert_eq!(record.battery_level, 100);
    assert_eq!(record.charging_state, ChargingStateEnum::Charging);
    assert_eq!(next, SimulationState::Idle { sleep_time: 90_000 });
}

#[test]
fn asking_for_what_is_under_way_keeps_it_going() {
    let mut sim = simulator();
    command(&mut sim, Command::Simulate(SimulationStateEnum::Driving), 1_000);
    let first = sim.ss;
    let out = sim.step(
        Event::Command(Command::Simulate(SimulationStateEnum::Driving)),
        1_400,
        T0,
    );
    assert_eq!(out.state_change, None);
    match (first, sim.ss) {
        (
            SimulationState::Driving { state: before, .. },
            SimulationState::Driving { state: after, update_time },
        ) => {
            assert_eq!(before, after);
            assert_eq!(update_time, 2_400);
        }
        other => panic!("{other:?}"),
    }
}

#[test]
fn the_record_of_a_vehicle_follows_its_simulator() {
    let mut sim = simulator();
    let mut vehicle = Vehicle::new(get_vehicles().remove(1));
    assert_eq!(vehicle.id, VehicleId::new(123_456_000));
    assert_eq!(vehicle.vehicle_id, VehicleGuid::new(999_456_000));
    let events = [
        (Event::Command(Command::GetVehicleData), 1_000),
        (Event::Command(Command::Simulate(SimulationStateEnum::Sleeping)), 2_000),
        (Event::Command(Command::WakeUp), 3_000),
        (Event::Wake, 63_000),
        (Event::Command(Command::Simulate(SimulationStateEnum::Charging)), 64_000),
        (Event::ChargeTick, 74_000),
        (Event::Sleep, 80_000),
        (Event::Command(Command::Simulate(SimulationStateEnum::Sleeping)), 90_000),
    ];
    for (event, now) in events {
        let out = sim.step(event, now, T0);
        if let Some(state) = out.state_change {
            vehicle.observe(state);
        }
        let expected = if sim.ss.is_asleep() {
            VehicleStateEnum::Offline
        } else {
            VehicleStateEnum::Online
        };
        assert_eq!(vehicle.data.state, expected);
        assert_eq!(sim.data.state, expected);
    }
    assert!(!vehicle.observe(SimulationStateEnum::Sleeping));
    assert!(vehicle.observe(SimulationStateEnum::Idle));
    assert_eq!(vehicle.data.display_name, "My Model 3");
}

#[test]
fn a_simulator_that_does_not_answer_is_not_available() {
    assert_eq!(settle(Exchange::Replied(Ok(5))), Ok(5));
    assert_eq!(
        settle::<()>(Exchange::Replied(Err(ResponseError::NotFound))),
        Err(ResponseError::NotFound)
    );
    for exchange in [Exchange::Refused, Exchange::TimedOut, Exchange::Dropped] {
        assert_eq!(settle::<u8>(exchange), Err(ResponseError::DeviceNotAvailable));
    }
    let guid = VehicleGuid::new(999_456_000);
    assert_eq!(settle_subscription(Exchange::Replied(Ok(5)), guid), Ok(5));
    let error = settle_subscription::<u8>(Exchange::TimedOut, guid).unwrap_err();
    assert_eq!(error.tag, "999456000");
    assert_eq!(error.error_type, ErrorType::VehicleDisconnected);
    assert_eq!(error.value, "disconnected");
}

#[test]
fn whole_seconds_of_a_time_in_milliseconds() {
    assert_eq!(whole_seconds(0), 0);
    assert_eq!(whole_seconds(999), 0);
    assert_eq!(whole_seconds(1_000), 1);
    assert_eq!(whole_seconds(1_700_000_000_999), 1_700_000_000);
    // Before the epoch a second that has begun counts too.
    assert_eq!(whole_seconds(-1), -1);
    assert_eq!(whole_seconds(-1_000), -1);
    assert_eq!(whole_seconds(-1_001), -2);
    assert_eq!(whole_seconds(i64::MAX), 9_223_372_036_854_775);
    assert_eq!(whole_seconds(i64::MIN), -9_223_372_036_854_776);
    // A simulator that starts in the middle of a second.
    let sim = start(&get_vehicles()[0], 0, 1_999);
    assert_eq!(sim.data.charge_state.timestamp, 1);
}
