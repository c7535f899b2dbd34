//! The state of a simulated vehicle: the state machine with its timers, and
//! the data that the vehicle reports.

use crate::decimal::Decimal;
use crate::records::{
    ChargeState, ClimateState, DriveState, GranularAccess, GuiSettings, VehicleConfig,
    VehicleState,
};
use crate::simulator::SimulationStateEnum;
use crate::streaming::{StreamingData, StreamingDataView};
use crate::text::{clone_text, clone_texts, opt_text, views};
use crate::types::{opt_shift, Timestamp, VehicleGuid, VehicleId, VehicleStateEnum};
use crate::vehicle_data::VehicleData;
use vstd::prelude::*;

verus! {

/// A point in time in milliseconds, on a clock that never goes back.
pub type Instant = u64;

/// Milliseconds between two steps of a drive.
pub const DRIVE_INTERVAL: u64 = 1_000;

/// Milliseconds between two steps of a charge.
pub const CHARGE_INTERVAL: u64 = 10_000;

/// Milliseconds that an idle vehicle stays awake.
pub const SLEEP_DELAY: u64 = 60_000;

/// Milliseconds that a sleeping vehicle takes to wake up once asked.
pub const WAKE_DELAY: u64 = 60_000;

/// The last instant at which every timer can still be set.
pub const LAST_INSTANT: u64 = 0xffff_ffff_ffff_ffff - 60_000;

/// The speed of a simulated drive in miles per hour.
pub const DRIVE_SPEED: u16 = 60;

/// The whole seconds since the epoch of a time in milliseconds since the
/// epoch: the seconds that have begun before it.
pub open spec fn seconds_of(timestamp: Timestamp) -> Timestamp {
    (timestamp as int / 1000) as i64
}

/// The whole seconds of a time in milliseconds.
pub fn whole_seconds(timestamp: Timestamp) -> (r: Timestamp)
    ensures
        r == seconds_of(timestamp),
{
    if timestamp >= 0 {
        timestamp / 1000
    } else {
        let short: i64 = -(timestamp + 1);
        let whole: i64 = short / 1000;
        assert(timestamp as int / 1000 == -(whole as int) - 1) by (nonlinear_arith)
            requires
                timestamp < 0,
                whole == (-(timestamp + 1)) / 1000,
        ;
        -whole - 1
    }
}

/// A drive: where and when it started, and how the vehicle moves.
#[derive(Debug, Clone, Copy, PartialEq, Eq, Structural)]
pub struct SimulationDriveState {
    /// When the drive started.
    pub time: Instant,
    /// Where the drive started.
    pub latitude: Decimal,
    pub longitude: Decimal,
    /// The direction of the drive in degrees.
    pub heading: u16,
    /// The speed in miles per hour.
    pub speed: u16,
    /// The battery level in percent when the drive started.
    pub battery_level: u8,
}

/// A charge: when it started and with what battery level.
#[derive(Debug, Clone, Copy, PartialEq, Eq, Structural)]
pub struct SimulationChargeState {
    /// When the charge started.
    pub time: Instant,
    /// The battery level in percent when the charge started.
    pub battery_level: u8,
}

/// The state of a simulated vehicle, with the instant at which it acts next.
#[allow(inconsistent_fields)]
#[derive(Debug, Clone, Copy, PartialEq, Eq, Structural)]
pub enum SimulationState {
    /// Driving; the drive advances at `update_time`.
    Driving { state: SimulationDriveState, update_time: Instant },
    /// Charging; the charge advances at `update_time`.
    Charging { state: SimulationChargeState, update_time: Instant },
    /// Idle; the vehicle falls asleep at `sleep_time`.
    Idle { sleep_time: Instant },
    /// Idle, and never falling asleep.
    IdleNoSleep,
    /// Asleep; the vehicle wakes at `wake_up_time` if there is one.
    Sleeping { wake_up_time: Option<Instant> },
}

/// Everything a simulated vehicle knows of itself. Unlike `VehicleData`
/// every sub-record is always there.
#[derive(Debug, PartialEq, Eq)]
pub struct VehicleDataState {
    pub id: VehicleId,
    pub user_id: i64,
    pub vehicle_id: VehicleGuid,
    pub vin: String,
    pub color: Option<String>,
    pub access_type: String,
    pub granular_access: GranularAccess,
    pub tokens: Vec<String>,
    pub state: VehicleStateEnum,
    pub in_service: bool,
    pub id_s: String,
    pub calendar_enabled: bool,
    pub api_version: i64,
    pub backseat_token: Option<String>,
    pub backseat_token_updated_at: Option<Timestamp>,
    pub charge_state: ChargeState,
    pub climate_state: ClimateState,
    pub drive_state: DriveState,
    pub gui_settings: GuiSettings,
    pub vehicle_config: VehicleConfig,
    pub vehicle_state: VehicleState,
    /// Elevation in meters, which is no part of the reported data.
    pub elevation: u32,
}

/// The coordinate, or zero where there is none.
pub open spec fn or_zero(v: Option<Decimal>) -> Decimal {
    match v {
        Some(d) => d,
        None => Decimal { micros: 0 },
    }
}

/// The drive that starts at `now` from where the vehicle is, with the
/// battery as it is.
pub open spec fn drive_from(data: VehicleDataState, now: Instant) -> SimulationDriveState {
    SimulationDriveState {
        time: now,
        latitude: or_zero(data.drive_state.latitude),
        longitude: or_zero(data.drive_state.longitude),
        heading: data.drive_state.heading,
        speed: 60,
        battery_level: data.charge_state.battery_level,
    }
}

/// The charge that starts at `now` with the battery as it is.
pub open spec fn charge_from(data: VehicleDataState, now: Instant) -> SimulationChargeState {
    SimulationChargeState { time: now, battery_level: data.charge_state.battery_level }
}

impl SimulationDriveState {
    /// The drive that starts at `now` from where the vehicle is.
    pub fn from(data: &VehicleDataState, now: Instant) -> (r: Self)
        ensures
            r == drive_from(*data, now),
    {
        SimulationDriveState {
            time: now,
            latitude: match data.drive_state.latitude {
                Some(d) => d,
                None => Decimal { micros: 0 },
            },
            longitude: match data.drive_state.longitude {
                Some(d) => d,
                None => Decimal { micros: 0 },
            },
            heading: data.drive_state.heading,
            speed: DRIVE_SPEED,
            battery_level: data.charge_state.battery_level,
        }
    }
}

impl SimulationChargeState {
    /// The charge that starts at `now` with the battery as it is.
    pub fn from(data: &VehicleDataState, now: Instant) -> (r: Self)
        ensures
            r == charge_from(*data, now),
    {
        SimulationChargeState { time: now, battery_level: data.charge_state.battery_level }
    }
}

impl SimulationStateEnum {
    /// The kind of a state.
    pub fn from(state: &SimulationState) -> (r: Self)
        ensures
            r == state.kind(),
    {
        match state {
            SimulationState::Driving { .. } => SimulationStateEnum::Driving,
            SimulationState::Charging { .. } => SimulationStateEnum::Charging,
            SimulationState::Idle { .. } => SimulationStateEnum::Idle,
            SimulationState::IdleNoSleep => SimulationStateEnum::IdleNoSleep,
            SimulationState::Sleeping { .. } => SimulationStateEnum::Sleeping,
        }
    }
}

impl SimulationState {
    /// The kind of the state.
    pub open spec fn kind(&self) -> SimulationStateEnum {
        match *self {
            SimulationState::Driving { .. } => SimulationStateEnum::Driving,
            SimulationState::Charging { .. } => SimulationStateEnum::Charging,
            SimulationState::Idle { .. } => SimulationStateEnum::Idle,
            SimulationState::IdleNoSleep => SimulationStateEnum::IdleNoSleep,
            SimulationState::Sleeping { .. } => SimulationStateEnum::Sleeping,
        }
    }

    /// The state after asking for a drive at `now`: a drive that is under
    /// way goes on, otherwise one starts; either way it advances in a second.
    pub open spec fn driving(self, data: VehicleDataState, now: Instant) -> SimulationState {
        SimulationState::Driving {
            state: match self {
                SimulationState::Driving { state, .. } => state,
                _ => drive_from(data, now),
            },
            update_time: (now + 1_000) as u64,
        }
    }

    /// The state after asking for a charge at `now`: a charge that is under
    /// way goes on, otherwise one starts; either way it advances in ten
    /// seconds.
    pub open spec fn charging(self, data: VehicleDataState, now: Instant) -> SimulationState {
        SimulationState::Charging {
            state: match self {
                SimulationState::Charging { state, .. } => state,
                _ => charge_from(data, now),
            },
            update_time: (now + 10_000) as u64,
        }
    }

    /// The state after asking a vehicle to wake at `now`: a wake-up that is
    /// due stays due, otherwise one is due in a minute.
    pub open spec fn waking(self, now: Instant) -> SimulationState {
        match self {
            SimulationState::Sleeping { wake_up_time: Some(_) } => self,
            _ => SimulationState::Sleeping { wake_up_time: Some((now + 60_000) as u64) },
        }
    }

    /// The state with the sleep of an idle vehicle put off to a minute after
    /// `now`; any other state as it is.
    pub open spec fn kept_awake(self, now: Instant) -> SimulationState {
        match self {
            SimulationState::Idle { .. } => SimulationState::Idle {
                sleep_time: (now + 60_000) as u64,
            },
            _ => self,
        }
    }

    /// Whether the vehicle sleeps.
    pub fn is_asleep(&self) -> (r: bool)
        ensures
            r == (self.kind() == SimulationStateEnum::Sleeping),
    {
        match self {
            SimulationState::Sleeping { .. } => true,
            _ => false,
        }
    }

    /// Whether the vehicle drives.
    pub fn is_driving(&self) -> (r: bool)
        ensures
            r == (self.kind() == SimulationStateEnum::Driving),
    {
        match self {
            SimulationState::Driving { .. } => true,
            _ => false,
        }
    }

    /// Starts a drive at `now`, or lets the drive that is under way go on.
    pub fn drive(self, data: &VehicleDataState, now: Instant) -> (r: Self)
        requires
            now <= LAST_INSTANT,
        ensures
            r == self.driving(*data, now),
    {
        let state: SimulationDriveState = match self {
            SimulationState::Driving { state, .. } => state,
            _ => SimulationDriveState::from(data, now),
        };
        SimulationState::Driving { state, update_time: now + DRIVE_INTERVAL }
    }

    /// Starts a charge at `now`, or lets the charge that is under way go on.
    pub fn charge(self, data: &VehicleDataState, now: Instant) -> (r: Self)
        requires
            now <= LAST_INSTANT,
        ensures
            r == self.charging(*data, now),
    {
        let state: SimulationChargeState = match self {
            SimulationState::Charging { state, .. } => state,
            _ => SimulationChargeState::from(data, now),
        };
        SimulationState::Charging { state, update_time: now + CHARGE_INTERVAL }
    }

    /// Idle from `now` on, falling asleep in a minute.
    pub fn idle(now: Instant) -> (r: Self)
        requires
            now <= LAST_INSTANT,
        ensures
            r == (SimulationState::Idle { sleep_time: (now + 60_000) as u64 }),
    {
        SimulationState::Idle { sleep_time: now + SLEEP_DELAY }
    }

    /// Asleep, with no wake-up due.
    pub fn sleeping() -> (r: Self)
        ensures
            r == (SimulationState::Sleeping { wake_up_time: None }),
    {
        SimulationState::Sleeping { wake_up_time: None }
    }

    /// Asks the vehicle at `now` to wake up.
    pub fn wake_up(self, now: Instant) -> (r: Self)
        requires
            now <= LAST_INSTANT,
        ensures
            r == self.waking(now),
    {
        match self {
            SimulationState::Sleeping { wake_up_time: Some(_) } => self,
            _ => SimulationState::Sleeping { wake_up_time: Some(now + WAKE_DELAY) },
        }
    }

    /// Puts off the sleep of an idle vehicle to a minute after `now`.
    pub fn update_sleep_time(self, now: Instant) -> (r: Self)
        requires
            now <= LAST_INSTANT,
        ensures
            r == self.kept_awake(now),
    {
        match self {
            SimulationState::Idle { .. } => SimulationState::Idle { sleep_time: now + SLEEP_DELAY },
            _ => self,
        }
    }
}

/// The sample that a vehicle's data amounts to: the time and the movement
/// from the drive state, the battery from the charge state, the odometer
/// from the body.
pub open spec fn sample_of(data: VehicleDataState) -> StreamingDataView {
    StreamingDataView {
        id: data.vehicle_id,
        time: data.drive_state.timestamp,
        speed: data.drive_state.speed,
        odometer: Some(data.vehicle_state.odometer),
        soc: Some(data.charge_state.battery_level),
        elevation: Some(data.elevation),
        est_heading: Some(data.drive_state.heading),
        est_lat: data.drive_state.latitude,
        est_lng: data.drive_state.longitude,
        power: data.drive_state.power,
        shift_state: opt_shift(data.drive_state.shift_state),
        range: Some(data.charge_state.battery_range),
        est_range: Some(data.charge_state.est_battery_range),
        heading: Some(data.drive_state.heading),
    }
}

impl StreamingData {
    /// The sample that a vehicle's data amounts to.
    pub fn from(data: &VehicleDataState) -> (r: Self)
        ensures
            r@ == sample_of(*data),
    {
        StreamingData {
            id: data.vehicle_id,
            time: data.drive_state.timestamp,
            speed: data.drive_state.speed,
            odometer: Some(data.vehicle_state.odometer),
            soc: Some(data.charge_state.battery_level),
            elevation: Some(data.elevation),
            est_heading: Some(data.drive_state.heading),
            est_lat: data.drive_state.latitude,
            est_lng: data.drive_state.longitude,
            power: data.drive_state.power,
            shift_state: match &data.drive_state.shift_state {
                Some(s) => Some(s.clone()),
                None => None,
            },
            range: Some(data.charge_state.battery_range),
            est_range: Some(data.charge_state.est_battery_range),
            heading: Some(data.drive_state.heading),
        }
    }
}

/// Whether `r` reports everything that the vehicle knows of itself: every
/// value the same and every sub-record there.
pub open spec fn reports(r: VehicleData, data: VehicleDataState) -> bool {
    &&& r.id == data.id
    &&& r.user_id == data.user_id
    &&& r.vehicle_id == data.vehicle_id
    &&& r.vin@ == data.vin@
    &&& opt_text(r.color) == opt_text(data.color)
    &&& r.access_type@ == data.access_type@
    &&& r.granular_access.same_as(&data.granular_access)
    &&& views(r.tokens@) == views(data.tokens@)
    &&& r.state@ == data.state@
    &&& r.in_service == data.in_service
    &&& r.id_s@ == data.id_s@
    &&& r.calendar_enabled == data.calendar_enabled
    &&& r.api_version == data.api_version
    &&& opt_text(r.backseat_token) == opt_text(data.backseat_token)
    &&& r.backseat_token_updated_at == data.backseat_token_updated_at
    &&& r.charge_state is Some && r.charge_state->0.same_as(&data.charge_state)
    &&& r.climate_state is Some && r.climate_state->0.same_as(&data.climate_state)
    &&& r.drive_state is Some && r.drive_state->0.same_as(&data.drive_state)
    &&& r.gui_settings is Some && r.gui_settings->0.same_as(&data.gui_settings)
    &&& r.vehicle_config is Some && r.vehicle_config->0.same_as(&data.vehicle_config)
    &&& r.vehicle_state is Some && r.vehicle_state->0.same_as(&data.vehicle_state)
}

impl VehicleData {
    /// A report of everything that the vehicle knows of itself.
    pub fn from(data: &VehicleDataState) -> (r: Self)
        ensures
            reports(r, *data),
    {
        VehicleData {
            id: data.id,
            user_id: data.user_id,
            vehicle_id: data.vehicle_id,
            vin: data.vin.as_str().to_owned(),
            color: clone_text(&data.color),
            access_type: data.access_type.as_str().to_owned(),
            granular_access: data.granular_access.clone(),
            tokens: clone_texts(&data.tokens),
            state: data.state.clone(),
            in_service: data.in_service,
            id_s: data.id_s.as_str().to_owned(),
            calendar_enabled: data.calendar_enabled,
            api_version: data.api_version,
            backseat_token: clone_text(&data.backseat_token),
            backseat_token_updated_at: data.backseat_token_updated_at,
            charge_state: Some(data.charge_state.clone()),
            climate_state: Some(data.climate_state.clone()),
            drive_state: Some(data.drive_state.clone()),
            gui_settings: Some(data.gui_settings.clone()),
            vehicle_config: Some(data.vehicle_config.clone()),
            vehicle_state: Some(data.vehicle_state.clone()),
        }
    }
}

} // verus!
