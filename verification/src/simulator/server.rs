//! What a simulator starts with, which timer it waits for, and what a step
//! of a drive or of a charge does to the vehicle.

use crate::decimal::Decimal;
use crate::records::{ChargeState, DriveState};
use crate::simulator::factory::{
    factory_charge_state, factory_climate_state, factory_drive_state, factory_granular_access,
    factory_gui_settings, factory_vehicle_config, factory_vehicle_state, is_factory_charge_state,
    is_factory_climate_state, is_factory_drive_state, is_factory_granular_access,
    is_factory_gui_settings, is_factory_vehicle_config, is_factory_vehicle_state,
};
use crate::simulator::types::{
    Instant, SimulationChargeState, SimulationDriveState, SimulationState, VehicleDataState,
    LAST_INSTANT,
};
use crate::text::views;
use crate::types::{
    opt_shift, ChargingStateEnum, ChargingStateView, ShiftState, ShiftStateView, Timestamp,
    VehicleDefinition,
};
use vstd::prelude::*;

verus! {

// ---------------------------------------------------------------------------
// The data of a new vehicle
// ---------------------------------------------------------------------------
/// Whether `r` is the data of a simulator that starts at `now` for
/// `vehicle`: the identity of the vehicle, and every sub-record as it is
/// when a vehicle has just been set up.
pub open spec fn is_initial_data(
    r: VehicleDataState,
    vehicle: VehicleDefinition,
    now: Timestamp,
) -> bool {
    &&& r.id == vehicle.id
    &&& r.user_id == 800_001
    &&& r.vehicle_id == vehicle.vehicle_id
    &&& r.vin@ == vehicle.vin@
    &&& r.color is None
    &&& r.access_type@ == "OWNER"@
    &&& is_factory_granular_access(r.granular_access)
    &&& views(r.tokens@) == seq!["4f993c5b9e2b937b"@, "7a3153b1bbb48a96"@]
    &&& r.state@ == vehicle.state@
    &&& r.in_service == false
    &&& r.id_s@ == vehicle.id_s@
    &&& r.calendar_enabled == vehicle.calendar_enabled
    &&& r.api_version == 54
    &&& r.backseat_token is None
    &&& r.backseat_token_updated_at is None
    &&& is_factory_charge_state(r.charge_state, now)
    &&& is_factory_climate_state(r.climate_state, now)
    &&& is_factory_drive_state(r.drive_state, now)
    &&& is_factory_gui_settings(r.gui_settings, now)
    &&& is_factory_vehicle_config(r.vehicle_config, now)
    &&& is_factory_vehicle_state(r.vehicle_state, now, vehicle.display_name@)
    &&& r.elevation == 0
}

/// The data of a simulator that starts at `now` for `vehicle`.
pub fn get_vehicle_data(vehicle: &VehicleDefinition, now: Timestamp) -> (r: VehicleDataState)
    ensures
        is_initial_data(r, *vehicle, now),
{
    let mut tokens: Vec<String> = Vec::new();
    tokens.push("4f993c5b9e2b937b".to_owned());
    tokens.push("7a3153b1bbb48a96".to_owned());
    assert(views(tokens@) =~= seq!["4f993c5b9e2b937b"@, "7a3153b1bbb48a96"@]);
    VehicleDataState {
        id: vehicle.id,
        user_id: 800_001,
        vehicle_id: vehicle.vehicle_id,
        vin: vehicle.vin.as_str().to_owned(),
        color: None,
        access_type: "OWNER".to_owned(),
        granular_access: factory_granular_access(),
        tokens,
        state: vehicle.state.clone(),
        in_service: false,
        id_s: vehicle.id_s.as_str().to_owned(),
        calendar_enabled: vehicle.calendar_enabled,
        api_version: 54,
        backseat_token: None,
        backseat_token_updated_at: None,
        charge_state: factory_charge_state(now),
        climate_state: factory_climate_state(now),
        drive_state: factory_drive_state(now),
        gui_settings: factory_gui_settings(now),
        vehicle_config: factory_vehicle_config(now),
        vehicle_state: factory_vehicle_state(now, vehicle.display_name.as_str()),
        elevation: 0,
    }
}

// ---------------------------------------------------------------------------
// Timers
// ---------------------------------------------------------------------------
/// The drive that is under way and the instant at which it advances.
pub fn maybe_update_drive(ss: &SimulationState) -> (r: Option<(Instant, SimulationDriveState)>)
    ensures
        r == match *ss {
            SimulationState::Driving { state, update_time } => Some((update_time, state)),
            _ => None,
        },
{
    match ss {
        SimulationState::Driving { state, update_time } => Some((*update_time, *state)),
        _ => None,
    }
}

/// The charge that is under way and the instant at which it advances.
pub fn maybe_update_charge(ss: &SimulationState) -> (r: Option<(Instant, SimulationChargeState)>)
    ensures
        r == match *ss {
            SimulationState::Charging { state, update_time } => Some((update_time, state)),
            _ => None,
        },
{
    match ss {
        SimulationState::Charging { state, update_time } => Some((*update_time, *state)),
        _ => None,
    }
}

/// The instant at which an idle vehicle falls asleep.
pub fn maybe_sleep(ss: &SimulationState) -> (r: Option<Instant>)
    ensures
        r == match *ss {
            SimulationState::Idle { sleep_time } => Some(sleep_time),
            _ => None,
        },
{
    match ss {
        SimulationState::Idle { sleep_time } => Some(*sleep_time),
        _ => None,
    }
}

/// The instant at which a sleeping vehicle wakes, if it was asked to.
pub fn maybe_wake_up(ss: &SimulationState) -> (r: Option<Instant>)
    ensures
        r == match *ss {
            SimulationState::Sleeping { wake_up_time: Some(t) } => Some(t),
            _ => None,
        },
{
    match ss {
        SimulationState::Sleeping { wake_up_time: Some(t) } => Some(*t),
        _ => None,
    }
}

// ---------------------------------------------------------------------------
// Driving
// ---------------------------------------------------------------------------
/// Milliseconds from `since` to `now`, zero if `now` is the earlier one.
pub open spec fn elapsed(now: Instant, since: Instant) -> int {
    if now >= since {
        now - since
    } else {
        0
    }
}

/// Millimetres covered in `elapsed_ms` milliseconds at `speed` miles per
/// hour, rounded down. A mile is 1.609344 km, so a mile per hour is
/// 1397/3125 millimetres per millisecond.
pub open spec fn distance_mm(elapsed_ms: int, speed: int) -> int {
    elapsed_ms * speed * 1397 / 3125
}

/// Whether a drive that started with `level` percent has used up the
/// battery after `distance` millimetres. A kilometre costs one percent.
pub open spec fn battery_spent(level: int, distance: int) -> bool {
    distance >= level * 1_000_000
}

/// The whole percents left of `level` after `distance` millimetres, between
/// 0 and 100. A kilometre that was begun is counted in full.
pub open spec fn level_after_drive(level: int, distance: int) -> int {
    let left = level - (distance + 999_999) / 1_000_000;
    if left < 0 {
        0
    } else if left > 100 {
        100
    } else {
        left
    }
}

/// The range in km that the battery level stands for: two per percent.
pub open spec fn range_of(level: int) -> Decimal {
    Decimal { micros: (level * 2_000_000) as i64 }
}

/// What a drive has covered at `now`.
#[derive(Debug, Clone, Copy, PartialEq, Eq, Structural)]
pub struct DriveLeg {
    /// Where the drive started.
    pub latitude: Decimal,
    pub longitude: Decimal,
    /// The direction of the drive in degrees.
    pub heading: u16,
    /// The distance covered in millimetres.
    pub distance: u128,
}

/// How far a drive has come at `now`, for whoever works out the position.
pub fn drive_leg(state: &SimulationDriveState, now: Instant) -> (r: DriveLeg)
    ensures
        r.latitude == state.latitude,
        r.longitude == state.longitude,
        r.heading == state.heading,
        r.distance == distance_mm(elapsed(now, state.time), state.speed as int),
{
    DriveLeg {
        latitude: state.latitude,
        longitude: state.longitude,
        heading: state.heading,
        distance: distance_of(state, now),
    }
}

fn distance_of(state: &SimulationDriveState, now: Instant) -> (r: u128)
    ensures
        r == distance_mm(elapsed(now, state.time), state.speed as int),
        r <= 0xffff_ffff_ffff_ffff * 0xffff * 1397,
{
    let ms: u128 = if now >= state.time {
        (now - state.time) as u128
    } else {
        0
    };
    assert(ms * (state.speed as u128) <= 0xffff_ffff_ffff_ffff * 0xffff) by (nonlinear_arith)
        requires
            ms <= 0xffff_ffff_ffff_ffff,
            (state.speed as u128) <= 0xffff,
    ;
    let run: u128 = ms * (state.speed as u128);
    assert(run * 1397 <= 0xffff_ffff_ffff_ffff * 0xffff * 1397);
    run * 1397 / 3125
}

/// Whether `r` is the drive state of a vehicle at `latitude`, `longitude`
/// at the time `timestamp`: moving at `speed` miles per hour in gear if
/// `moving`, with no speed, gear or power otherwise.
pub open spec fn is_drive_record(
    r: DriveState,
    timestamp: Timestamp,
    latitude: Decimal,
    longitude: Decimal,
    speed: int,
    moving: bool,
) -> bool {
    &&& r.active_route_latitude == latitude
    &&& r.active_route_longitude == longitude
    &&& r.active_route_traffic_minutes_delay.micros == 0
    &&& r.gps_as_of == timestamp
    &&& r.heading == 0
    &&& r.latitude == Some(latitude)
    &&& r.longitude == Some(longitude)
    &&& r.native_latitude is None
    &&& r.native_location_supported == 1
    &&& r.native_longitude is None
    &&& r.native_type@ == "wgs"@
    &&& r.power == (if moving {
        Some(500i32)
    } else {
        None
    })
    &&& opt_shift(r.shift_state) == (if moving {
        Some(ShiftStateView::Drive)
    } else {
        None
    })
    &&& r.speed == (if moving {
        Some(Decimal { micros: (speed * 1_000_000) as i64 })
    } else {
        None
    })
    &&& r.timestamp == timestamp
}

/// Whether `r` is `before` with the battery at `level` percent and the
/// ranges that go with it.
pub open spec fn is_charge_record_at(r: ChargeState, before: ChargeState, level: int) -> bool {
    r.same_as(
        &ChargeState {
            battery_level: level as u8,
            battery_range: range_of(level),
            ideal_battery_range: range_of(level),
            est_battery_range: range_of(level),
            ..before
        },
    )
}

fn battery_after_drive(level: u8, distance: u128) -> (r: (u8, bool))
    requires
        distance <= 0xffff_ffff_ffff_ffff * 0xffff * 1397,
    ensures
        r.0 == level_after_drive(level as int, distance as int),
        r.1 == battery_spent(level as int, distance as int),
{
    let full: u128 = level as u128 * 1_000_000;
    let used: u128 = (distance + 999_999) / 1_000_000;
    let left: u128 = if used >= level as u128 {
        0
    } else {
        level as u128 - used
    };
    let battery_level: u8 = if left > 100 {
        100
    } else {
        left as u8
    };
    (battery_level, distance >= full)
}

fn charge_record_at(before: &ChargeState, level: u8) -> (r: ChargeState)
    requires
        level <= 100,
    ensures
        is_charge_record_at(r, *before, level as int),
{
    let range: Decimal = Decimal { micros: level as i64 * 2_000_000 };
    let mut charge_state: ChargeState = before.clone();
    charge_state.battery_level = level;
    charge_state.battery_range = range;
    charge_state.ideal_battery_range = range;
    charge_state.est_battery_range = range;
    charge_state
}

/// The state after a step of the drive `state` at `now`: idle once the
/// battery is spent, else driving on.
pub open spec fn state_after_drive(
    ss: SimulationState,
    data: VehicleDataState,
    state: SimulationDriveState,
    now: Instant,
) -> SimulationState {
    if battery_spent(
        state.battery_level as int,
        distance_mm(elapsed(now, state.time), state.speed as int),
    ) {
        SimulationState::Idle { sleep_time: (now + 60_000) as u64 }
    } else {
        ss.driving(data, now)
    }
}

/// One step of a drive: the vehicle is at `latitude`, `longitude`, the
/// battery has paid for the distance, and the drive goes on unless the
/// battery is spent.
///
/// Returns the new drive state, the elevation, the new charge state and the
/// next state of the simulator.
pub fn get_updated_drive_state(
    data: &VehicleDataState,
    ss: &SimulationState,
    state: &SimulationDriveState,
    now: Instant,
    timestamp: Timestamp,
    latitude: Decimal,
    longitude: Decimal,
) -> (r: (DriveState, u32, ChargeState, SimulationState))
    requires
        now <= LAST_INSTANT,
    ensures
        is_drive_record(r.0, timestamp, latitude, longitude, state.speed as int, true),
        r.1 == 0,
        is_charge_record_at(
            r.2,
            data.charge_state,
            level_after_drive(
                state.battery_level as int,
                distance_mm(elapsed(now, state.time), state.speed as int),
            ),
        ),
        r.3 == state_after_drive(*ss, *data, *state, now),
{
    let distance: u128 = distance_of(state, now);
    let (battery_level, finished_driving) = battery_after_drive(state.battery_level, distance);
    let drive_state = DriveState {
        active_route_latitude: latitude,
        active_route_longitude: longitude,
        active_route_traffic_minutes_delay: Decimal { micros: 0 },
        gps_as_of: timestamp,
        heading: 0,
        latitude: Some(latitude),
        longitude: Some(longitude),
        native_latitude: None,
        native_location_supported: 1,
        native_longitude: None,
        native_type: "wgs".to_owned(),
        power: Some(500),
        shift_state: Some(ShiftState::Drive),
        speed: Some(Decimal { micros: state.speed as i64 * 1_000_000 }),
        timestamp,
    };
    let charge_state: ChargeState = charge_record_at(&data.charge_state, battery_level);
    let elevation: u32 = 0;
    let next: SimulationState = if finished_driving {
        SimulationState::idle(now)
    } else {
        ss.drive(data, now)
    };
    (drive_state, elevation, charge_state, next)
}

// ---------------------------------------------------------------------------
// Charging
// ---------------------------------------------------------------------------
/// Whether a charge that started with `level` percent has filled the battery
/// after `elapsed_ms` milliseconds. A minute adds ten percent, so six
/// seconds add one.
pub open spec fn battery_full(level: int, elapsed_ms: int) -> bool {
    level * 6_000 + elapsed_ms >= 600_000
}

/// The whole percents that `level` has grown to after `elapsed_ms`
/// milliseconds of charging, at most 100.
pub open spec fn level_after_charge(level: int, elapsed_ms: int) -> int {
    let grown = level + elapsed_ms / 6_000;
    if grown > 100 {
        100
    } else {
        grown
    }
}

/// The hours that a battery at `level` percent still needs, or `None` once
/// it is full: a sixth of a minute per percent.
pub open spec fn time_to_full(level: int, full: bool) -> Option<Decimal> {
    if full {
        None
    } else {
        Some(Decimal { micros: ((100 - level) * 1_000_000 / 600) as i64 })
    }
}

/// The charge state `r` with the battery, the ranges, the cable and the time
/// to a full battery as they are when a vehicle has just been set up.
pub open spec fn unused(r: ChargeState) -> ChargeState {
    ChargeState {
        battery_level: 42,
        battery_range: range_of(42),
        est_battery_range: range_of(42),
        ideal_battery_range: range_of(42),
        charging_state: ChargingStateEnum::Disconnected,
        charge_amps: 48,
        time_to_full_charge: None,
        ..r
    }
}

/// Whether `r` is the charge state that a step of a charge at `timestamp`
/// leaves behind: as it is when a vehicle has just been set up, but with
/// the battery at `level` percent, the ranges that go with it and the time
/// that is left; charging if `plugged`, else with the cable gone and no
/// current.
pub open spec fn is_charging_record(
    r: ChargeState,
    timestamp: Timestamp,
    level: int,
    time_left: Option<Decimal>,
    plugged: bool,
) -> bool {
    &&& is_factory_charge_state(unused(r), timestamp)
    &&& r.battery_level == level
    &&& r.battery_range == range_of(level)
    &&& r.est_battery_range == range_of(level)
    &&& r.ideal_battery_range == range_of(level)
    &&& r.charging_state@ == (if plugged {
        ChargingStateView::Charging
    } else {
        ChargingStateView::Disconnected
    })
    &&& r.charge_amps == (if plugged {
        48i64
    } else {
        0
    })
    &&& r.time_to_full_charge == time_left
}

/// The state after a step of the charge `state` at `now`: idle once the
/// battery is full, else charging on.
pub open spec fn state_after_charge(
    ss: SimulationState,
    data: VehicleDataState,
    state: SimulationChargeState,
    now: Instant,
) -> SimulationState {
    if battery_full(state.battery_level as int, elapsed(now, state.time)) {
        SimulationState::Idle { sleep_time: (now + 60_000) as u64 }
    } else {
        ss.charging(data, now)
    }
}

/// One step of a charge: the battery has grown with the time, and the charge
/// goes on unless the battery is full.
///
/// Returns the new charge state and the next state of the simulator.
pub fn get_updated_charge_state(
    data: &VehicleDataState,
    ss: &SimulationState,
    state: &SimulationChargeState,
    now: Instant,
    timestamp: Timestamp,
) -> (r: (ChargeState, SimulationState))
    requires
        now <= LAST_INSTANT,
    ensures
        is_charging_record(
            r.0,
            timestamp,
            level_after_charge(state.battery_level as int, elapsed(now, state.time)),
            time_to_full(
                level_after_charge(state.battery_level as int, elapsed(now, state.time)),
                battery_full(state.battery_level as int, elapsed(now, state.time)),
            ),
            true,
        ),
        r.1 == state_after_charge(*ss, *data, *state, now),
{
    let ms: u128 = if now >= state.time {
        (now - state.time) as u128
    } else {
        0
    };
    let finished_charging: bool = state.battery_level as u128 * 6_000 + ms >= 600_000;
    let grown: u128 = state.battery_level as u128 + ms / 6_000;
    let battery_level: u8 = if grown > 100 {
        100
    } else {
        grown as u8
    };
    let time_to_full_charge: Option<Decimal> = if finished_charging {
        None
    } else {
        Some(Decimal { micros: (100 - battery_level as i64) * 1_000_000 / 600 })
    };
    let range: Decimal = Decimal { micros: battery_level as i64 * 2_000_000 };
    let mut charge_state: ChargeState = factory_charge_state(timestamp);
    charge_state.battery_level = battery_level;
    charge_state.battery_range = range;
    charge_state.est_battery_range = range;
    charge_state.ideal_battery_range = range;
    charge_state.charging_state = ChargingStateEnum::Charging;
    charge_state.time_to_full_charge = time_to_full_charge;
    let next: SimulationState = if finished_charging {
        SimulationState::idle(now)
    } else {
        ss.charge(data, now)
    };
    (charge_state, next)
}

} // verus!
