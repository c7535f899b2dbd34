//! The sub-records of a vehicle's data, as the owner interface reports them.
//!
//! Quantities that are not whole numbers are held as `Decimal`.

use crate::decimal::Decimal;
use crate::text::{clone_text, opt_text};
use crate::types::{opt_shift, ChargingStateEnum, ShiftState, Timestamp};
use vstd::prelude::*;

verus! {

/// What the holder of the token may see of the vehicle.
#[derive(Debug, PartialEq, Eq)]
pub struct GranularAccess {
    pub hide_private: bool,
}

impl GranularAccess {
    /// Whether `other` holds the same values, field by field.
    pub open spec fn same_as(&self, other: &GranularAccess) -> bool {
        &&& self.hide_private == other.hide_private
    }
}

impl Clone for GranularAccess {
    fn clone(&self) -> (r: Self)
        ensures
            r.same_as(self),
    {
        GranularAccess {
            hide_private: self.hide_private,
        }
    }
}

/// The battery and everything about charging it.
#[derive(Debug, PartialEq, Eq)]
pub struct ChargeState {
    pub battery_heater_on: bool,
    pub battery_level: u8,
    pub battery_range: Decimal,
    pub charge_amps: i64,
    pub charge_current_request: i64,
    pub charge_current_request_max: i64,
    pub charge_enable_request: bool,
    pub charge_energy_added: Decimal,
    pub charge_limit_soc: u8,
    pub charge_limit_soc_max: u8,
    pub charge_limit_soc_min: u8,
    pub charge_limit_soc_std: u8,
    pub charge_miles_added_ideal: Decimal,
    pub charge_miles_added_rated: Decimal,
    pub charge_port_cold_weather_mode: Option<bool>,
    pub charge_port_color: String,
    pub charge_port_door_open: bool,
    pub charge_port_latch: String,
    pub charge_rate: Option<Decimal>,
    pub charger_actual_current: i64,
    pub charger_phases: Option<u8>,
    pub charger_pilot_current: i64,
    pub charger_power: i64,
    pub charger_voltage: i64,
    pub charging_state: ChargingStateEnum,
    pub conn_charge_cable: String,
    pub est_battery_range: Decimal,
    pub fast_charger_brand: String,
    pub fast_charger_present: bool,
    pub fast_charger_type: String,
    pub ideal_battery_range: Decimal,
    pub managed_charging_active: Option<bool>,
    pub managed_charging_start_time: Option<Timestamp>,
    pub managed_charging_user_canceled: Option<bool>,
    pub max_range_charge_counter: i64,
    pub minutes_to_full_charge: i64,
    pub not_enough_power_to_heat: Option<bool>,
    pub off_peak_charging_enabled: bool,
    pub off_peak_charging_times: String,
    pub off_peak_hours_end_time: i64,
    pub preconditioning_enabled: bool,
    pub preconditioning_times: String,
    pub scheduled_charging_mode: String,
    pub scheduled_charging_pending: bool,
    pub scheduled_charging_start_time: Option<Timestamp>,
    pub scheduled_departure_time: Timestamp,
    pub scheduled_departure_time_minutes: i64,
    pub supercharger_session_trip_planner: bool,
    pub time_to_full_charge: Option<Decimal>,
    pub timestamp: i64,
    pub trip_charging: bool,
    pub usable_battery_level: i64,
    pub user_charge_enable_request: Option<bool>,
}

impl ChargeState {
    /// Whether `other` holds the same values, field by field.
    pub open spec fn same_as(&self, other: &ChargeState) -> bool {
        &&& self.battery_heater_on == other.battery_heater_on
        &&& self.battery_level == other.battery_level
        &&& self.battery_range == other.battery_range
        &&& self.charge_amps == other.charge_amps
        &&& self.charge_current_request == other.charge_current_request
        &&& self.charge_current_request_max == other.charge_current_request_max
        &&& self.charge_enable_request == other.charge_enable_request
        &&& self.charge_energy_added == other.charge_energy_added
        &&& self.charge_limit_soc == other.charge_limit_soc
        &&& self.charge_limit_soc_max == other.charge_limit_soc_max
        &&& self.charge_limit_soc_min == other.charge_limit_soc_min
        &&& self.charge_limit_soc_std == other.charge_limit_soc_std
        &&& self.charge_miles_added_ideal == other.charge_miles_added_ideal
        &&& self.charge_miles_added_rated == other.charge_miles_added_rated
        &&& self.charge_port_cold_weather_mode == other.charge_port_cold_weather_mode
        &&& self.charge_port_color@ == other.charge_port_color@
        &&& self.charge_port_door_open == other.charge_port_door_open
        &&& self.charge_port_latch@ == other.charge_port_latch@
        &&& self.charge_rate == other.charge_rate
        &&& self.charger_actual_current == other.charger_actual_current
        &&& self.charger_phases == other.charger_phases
        &&& self.charger_pilot_current == other.charger_pilot_current
        &&& self.charger_power == other.charger_power
        &&& self.charger_voltage == other.charger_voltage
        &&& self.charging_state@ == other.charging_state@
        &&& self.conn_charge_cable@ == other.conn_charge_cable@
        &&& self.est_battery_range == other.est_battery_range
        &&& self.fast_charger_brand@ == other.fast_charger_brand@
        &&& self.fast_charger_present == other.fast_charger_present
        &&& self.fast_charger_type@ == other.fast_charger_type@
        &&& self.ideal_battery_range == other.ideal_battery_range
        &&& self.managed_charging_active == other.managed_charging_active
        &&& self.managed_charging_start_time == other.managed_charging_start_time
        &&& self.managed_charging_user_canceled == other.managed_charging_user_canceled
        &&& self.max_range_charge_counter == other.max_range_charge_counter
        &&& self.minutes_to_full_charge == other.minutes_to_full_charge
        &&& self.not_enough_power_to_heat == other.not_enough_power_to_heat
        &&& self.off_peak_charging_enabled == other.off_peak_charging_enabled
        &&& self.off_peak_charging_times@ == other.off_peak_charging_times@
        &&& self.off_peak_hours_end_time == other.off_peak_hours_end_time
        &&& self.preconditioning_enabled == other.preconditioning_enabled
        &&& self.preconditioning_times@ == other.preconditioning_times@
        &&& self.scheduled_charging_mode@ == other.scheduled_charging_mode@
        &&& self.scheduled_charging_pending == other.scheduled_charging_pending
        &&& self.scheduled_charging_start_time == other.scheduled_charging_start_time
        &&& self.scheduled_departure_time == other.scheduled_departure_time
        &&& self.scheduled_departure_time_minutes == other.scheduled_departure_time_minutes
        &&& self.supercharger_session_trip_planner == other.supercharger_session_trip_planner
        &&& self.time_to_full_charge == other.time_to_full_charge
        &&& self.timestamp == other.timestamp
        &&& self.trip_charging == other.trip_charging
        &&& self.usable_battery_level == other.usable_battery_level
        &&& self.user_charge_enable_request == other.user_charge_enable_request
    }
}

impl Clone for ChargeState {
    fn clone(&self) -> (r: Self)
        ensures
            r.same_as(self),
    {
        ChargeState {
            battery_heater_on: self.battery_heater_on,
            battery_level: self.battery_level,
            battery_range: self.battery_range,
            charge_amps: self.charge_amps,
            charge_current_request: self.charge_current_request,
            charge_current_request_max: self.charge_current_request_max,
            charge_enable_request: self.charge_enable_request,
            charge_energy_added: self.charge_energy_added,
            charge_limit_soc: self.charge_limit_soc,
            charge_limit_soc_max: self.charge_limit_soc_max,
            charge_limit_soc_min: self.charge_limit_soc_min,
            charge_limit_soc_std: self.charge_limit_soc_std,
            charge_miles_added_ideal: self.charge_miles_added_ideal,
            charge_miles_added_rated: self.charge_miles_added_rated,
            charge_port_cold_weather_mode: self.charge_port_cold_weather_mode,
            charge_port_color: self.charge_port_color.as_str().to_owned(),
            charge_port_door_open: self.charge_port_door_open,
            charge_port_latch: self.charge_port_latch.as_str().to_owned(),
            charge_rate: self.charge_rate,
            charger_actual_current: self.charger_actual_current,
            charger_phases: self.charger_phases,
            charger_pilot_current: self.charger_pilot_current,
            charger_power: self.charger_power,
            charger_voltage: self.charger_voltage,
            charging_state: self.charging_state.clone(),
            conn_charge_cable: self.conn_charge_cable.as_str().to_owned(),
            est_battery_range: self.est_battery_range,
            fast_charger_brand: self.fast_charger_brand.as_str().to_owned(),
            fast_charger_present: self.fast_charger_present,
            fast_charger_type: self.fast_charger_type.as_str().to_owned(),
            ideal_battery_range: self.ideal_battery_range,
            managed_charging_active: self.managed_charging_active,
            managed_charging_start_time: self.managed_charging_start_time,
            managed_charging_user_canceled: self.managed_charging_user_canceled,
            max_range_charge_counter: self.max_range_charge_counter,
            minutes_to_full_charge: self.minutes_to_full_charge,
            not_enough_power_to_heat: self.not_enough_power_to_heat,
            off_peak_charging_enabled: self.off_peak_charging_enabled,
            off_peak_charging_times: self.off_peak_charging_times.as_str().to_owned(),
            off_peak_hours_end_time: self.off_peak_hours_end_time,
            preconditioning_enabled: self.preconditioning_enabled,
            preconditioning_times: self.preconditioning_times.as_str().to_owned(),
            scheduled_charging_mode: self.scheduled_charging_mode.as_str().to_owned(),
            scheduled_charging_pending: self.scheduled_charging_pending,
            scheduled_charging_start_time: self.scheduled_charging_start_time,
            scheduled_departure_time: self.scheduled_departure_time,
            scheduled_departure_time_minutes: self.scheduled_departure_time_minutes,
            supercharger_session_trip_planner: self.supercharger_session_trip_planner,
            time_to_full_charge: self.time_to_full_charge,
            timestamp: self.timestamp,
            trip_charging: self.trip_charging,
            usable_battery_level: self.usable_battery_level,
            user_charge_enable_request: self.user_charge_enable_request,
        }
    }
}

/// Heating, cooling and the temperatures inside and outside.
#[derive(Debug, PartialEq, Eq)]
pub struct ClimateState {
    pub allow_cabin_overheat_protection: bool,
    pub auto_seat_climate_left: Option<bool>,
    pub auto_seat_climate_right: Option<bool>,
    pub auto_steering_wheel_heat: Option<bool>,
    pub battery_heater: bool,
    pub battery_heater_no_power: Option<bool>,
    pub bioweapon_mode: bool,
    pub cabin_overheat_protection: String,
    pub cabin_overheat_protection_actively_cooling: Option<bool>,
    pub climate_keeper_mode: String,
    pub cop_activation_temperature: String,
    pub defrost_mode: i64,
    pub driver_temp_setting: Decimal,
    pub fan_status: i64,
    pub hvac_auto_request: String,
    pub inside_temp: Decimal,
    pub is_auto_conditioning_on: bool,
    pub is_climate_on: bool,
    pub is_front_defroster_on: bool,
    pub is_preconditioning: bool,
    pub is_rear_defroster_on: bool,
    pub left_temp_direction: i64,
    pub max_avail_temp: Decimal,
    pub min_avail_temp: Decimal,
    pub outside_temp: Decimal,
    pub passenger_temp_setting: Decimal,
    pub remote_heater_control_enabled: bool,
    pub right_temp_direction: i64,
    pub seat_heater_left: i64,
    pub seat_heater_rear_center: i64,
    pub seat_heater_rear_left: i64,
    pub seat_heater_rear_right: i64,
    pub seat_heater_right: i64,
    pub side_mirror_heaters: bool,
    pub steering_wheel_heat_level: Option<i64>,
    pub steering_wheel_heater: bool,
    pub supports_fan_only_cabin_overheat_protection: bool,
    pub timestamp: i64,
    pub wiper_blade_heater: bool,
}

impl ClimateState {
    /// Whether `other` holds the same values, field by field.
    pub open spec fn same_as(&self, other: &ClimateState) -> bool {
        &&& self.allow_cabin_overheat_protection == other.allow_cabin_overheat_protection
        &&& self.auto_seat_climate_left == other.auto_seat_climate_left
        &&& self.auto_seat_climate_right == other.auto_seat_climate_right
        &&& self.auto_steering_wheel_heat == other.auto_steering_wheel_heat
        &&& self.battery_heater == other.battery_heater
        &&& self.battery_heater_no_power == other.battery_heater_no_power
        &&& self.bioweapon_mode == other.bioweapon_mode
        &&& self.cabin_overheat_protection@ == other.cabin_overheat_protection@
        &&& self.cabin_overheat_protection_actively_cooling == other.cabin_overheat_protection_actively_cooling
        &&& self.climate_keeper_mode@ == other.climate_keeper_mode@
        &&& self.cop_activation_temperature@ == other.cop_activation_temperature@
        &&& self.defrost_mode == other.defrost_mode
        &&& self.driver_temp_setting == other.driver_temp_setting
        &&& self.fan_status == other.fan_status
        &&& self.hvac_auto_request@ == other.hvac_auto_request@
        &&& self.inside_temp == other.inside_temp
        &&& self.is_auto_conditioning_on == other.is_auto_conditioning_on
        &&& self.is_climate_on == other.is_climate_on
        &&& self.is_front_defroster_on == other.is_front_defroster_on
        &&& self.is_preconditioning == other.is_preconditioning
        &&& self.is_rear_defroster_on == other.is_rear_defroster_on
        &&& self.left_temp_direction == other.left_temp_direction
        &&& self.max_avail_temp == other.max_avail_temp
        &&& self.min_avail_temp == other.min_avail_temp
        &&& self.outside_temp == other.outside_temp
        &&& self.passenger_temp_setting == other.passenger_temp_setting
        &&& self.remote_heater_control_enabled == other.remote_heater_control_enabled
        &&& self.right_temp_direction == other.right_temp_direction
        &&& self.seat_heater_left == other.seat_heater_left
        &&& self.seat_heater_rear_center == other.seat_heater_rear_center
        &&& self.seat_heater_rear_left == other.seat_heater_rear_left
        &&& self.seat_heater_rear_right == other.seat_heater_rear_right
        &&& self.seat_heater_right == other.seat_heater_right
        &&& self.side_mirror_heaters == other.side_mirror_heaters
        &&& self.steering_wheel_heat_level == other.steering_wheel_heat_level
        &&& self.steering_wheel_heater == other.steering_wheel_heater
        &&& self.supports_fan_only_cabin_overheat_protection == other.supports_fan_only_cabin_overheat_protection
        &&& self.timestamp == other.timestamp
        &&& self.wiper_blade_heater == other.wiper_blade_heater
    }
}

impl Clone for ClimateState {
    fn clone(&self) -> (r: Self)
        ensures
            r.same_as(self),
    {
        ClimateState {
            allow_cabin_overheat_protection: self.allow_cabin_overheat_protection,
            auto_seat_climate_left: self.auto_seat_climate_left,
            auto_seat_climate_right: self.auto_seat_climate_right,
            auto_steering_wheel_heat: self.auto_steering_wheel_heat,
            battery_heater: self.battery_heater,
            battery_heater_no_power: self.battery_heater_no_power,
            bioweapon_mode: self.bioweapon_mode,
            cabin_overheat_protection: self.cabin_overheat_protection.as_str().to_owned(),
            cabin_overheat_protection_actively_cooling: self.cabin_overheat_protection_actively_cooling,
            climate_keeper_mode: self.climate_keeper_mode.as_str().to_owned(),
            cop_activation_temperature: self.cop_activation_temperature.as_str().to_owned(),
            defrost_mode: self.defrost_mode,
            driver_temp_setting: self.driver_temp_setting,
            fan_status: self.fan_status,
            hvac_auto_request: self.hvac_auto_request.as_str().to_owned(),
            inside_temp: self.inside_temp,
            is_auto_conditioning_on: self.is_auto_conditioning_on,
            is_climate_on: self.is_climate_on,
            is_front_defroster_on: self.is_front_defroster_on,
            is_preconditioning: self.is_preconditioning,
            is_rear_defroster_on: self.is_rear_defroster_on,
            left_temp_direction: self.left_temp_direction,
            max_avail_temp: self.max_avail_temp,
            min_avail_temp: self.min_avail_temp,
            outside_temp: self.outside_temp,
            passenger_temp_setting: self.passenger_temp_setting,
            remote_heater_control_enabled: self.remote_heater_control_enabled,
            right_temp_direction: self.right_temp_direction,
            seat_heater_left: self.seat_heater_left,
            seat_heater_rear_center: self.seat_heater_rear_center,
            seat_heater_rear_left: self.seat_heater_rear_left,
            seat_heater_rear_right: self.seat_heater_rear_right,
            seat_heater_right: self.seat_heater_right,
            side_mirror_heaters: self.side_mirror_heaters,
            steering_wheel_heat_level: self.steering_wheel_heat_level,
            steering_wheel_heater: self.steering_wheel_heater,
            supports_fan_only_cabin_overheat_protection: self.supports_fan_only_cabin_overheat_protection,
            timestamp: self.timestamp,
            wiper_blade_heater: self.wiper_blade_heater,
        }
    }
}

/// Where the vehicle is and how it moves.
#[derive(Debug, PartialEq, Eq)]
pub struct DriveState {
    pub active_route_latitude: Decimal,
    pub active_route_longitude: Decimal,
    pub active_route_traffic_minutes_delay: Decimal,
    pub gps_as_of: Timestamp,
    pub heading: u16,
    pub latitude: Option<Decimal>,
    pub longitude: Option<Decimal>,
    pub native_latitude: Option<Decimal>,
    pub native_location_supported: i64,
    pub native_longitude: Option<Decimal>,
    pub native_type: String,
    pub power: Option<i32>,
    pub shift_state: Option<ShiftState>,
    pub speed: Option<Decimal>,
    pub timestamp: Timestamp,
}

impl DriveState {
    /// Whether `other` holds the same values, field by field.
    pub open spec fn same_as(&self, other: &DriveState) -> bool {
        &&& self.active_route_latitude == other.active_route_latitude
        &&& self.active_route_longitude == other.active_route_longitude
        &&& self.active_route_traffic_minutes_delay == other.active_route_traffic_minutes_delay
        &&& self.gps_as_of == other.gps_as_of
        &&& self.heading == other.heading
        &&& self.latitude == other.latitude
        &&& self.longitude == other.longitude
        &&& self.native_latitude == other.native_latitude
        &&& self.native_location_supported == other.native_location_supported
        &&& self.native_longitude == other.native_longitude
        &&& self.native_type@ == other.native_type@
        &&& self.power == other.power
        &&& opt_shift(self.shift_state) == opt_shift(other.shift_state)
        &&& self.speed == other.speed
        &&& self.timestamp == other.timestamp
    }
}

impl Clone for DriveState {
    fn clone(&self) -> (r: Self)
        ensures
            r.same_as(self),
    {
        DriveState {
            active_route_latitude: self.active_route_latitude,
            active_route_longitude: self.active_route_longitude,
            active_route_traffic_minutes_delay: self.active_route_traffic_minutes_delay,
            gps_as_of: self.gps_as_of,
            heading: self.heading,
            latitude: self.latitude,
            longitude: self.longitude,
            native_latitude: self.native_latitude,
            native_location_supported: self.native_location_supported,
            native_longitude: self.native_longitude,
            native_type: self.native_type.as_str().to_owned(),
            power: self.power,
            shift_state: match &self.shift_state {
                Some(s) => Some(s.clone()),
                None => None,
            },
            speed: self.speed,
            timestamp: self.timestamp,
        }
    }
}

/// The units and formats the driver has chosen.
#[derive(Debug, PartialEq, Eq)]
pub struct GuiSettings {
    pub gui_24_hour_time: bool,
    pub gui_charge_rate_units: String,
    pub gui_distance_units: String,
    pub gui_range_display: String,
    pub gui_temperature_units: String,
    pub gui_tirepressure_units: String,
    pub show_range_units: bool,
    pub timestamp: i64,
}

impl GuiSettings {
    /// Whether `other` holds the same values, field by field.
    pub open spec fn same_as(&self, other: &GuiSettings) -> bool {
        &&& self.gui_24_hour_time == other.gui_24_hour_time
        &&& self.gui_charge_rate_units@ == other.gui_charge_rate_units@
        &&& self.gui_distance_units@ == other.gui_distance_units@
        &&& self.gui_range_display@ == other.gui_range_display@
        &&& self.gui_temperature_units@ == other.gui_temperature_units@
        &&& self.gui_tirepressure_units@ == other.gui_tirepressure_units@
        &&& self.show_range_units == other.show_range_units
        &&& self.timestamp == other.timestamp
    }
}

impl Clone for GuiSettings {
    fn clone(&self) -> (r: Self)
        ensures
            r.same_as(self),
    {
        GuiSettings {
            gui_24_hour_time: self.gui_24_hour_time,
            gui_charge_rate_units: self.gui_charge_rate_units.as_str().to_owned(),
            gui_distance_units: self.gui_distance_units.as_str().to_owned(),
            gui_range_display: self.gui_range_display.as_str().to_owned(),
            gui_temperature_units: self.gui_temperature_units.as_str().to_owned(),
            gui_tirepressure_units: self.gui_tirepressure_units.as_str().to_owned(),
            show_range_units: self.show_range_units,
            timestamp: self.timestamp,
        }
    }
}

/// How the vehicle was built and equipped.
#[derive(Debug, PartialEq, Eq)]
pub struct VehicleConfig {
    pub aux_park_lamps: Option<String>,
    pub badge_version: Option<i64>,
    pub can_accept_navigation_requests: bool,
    pub can_actuate_trunks: bool,
    pub car_special_type: String,
    pub car_type: String,
    pub charge_port_type: String,
    pub cop_user_set_temp_supported: bool,
    pub dashcam_clip_save_supported: bool,
    pub default_charge_to_max: bool,
    pub driver_assist: String,
    pub ece_restrictions: bool,
    pub efficiency_package: String,
    pub eu_vehicle: bool,
    pub exterior_color: String,
    pub exterior_trim: Option<String>,
    pub exterior_trim_override: String,
    pub has_air_suspension: bool,
    pub has_ludicrous_mode: bool,
    pub has_seat_cooling: bool,
    pub headlamp_type: String,
    pub interior_trim_type: String,
    pub key_version: Option<u8>,
    pub motorized_charge_port: bool,
    pub paint_color_override: String,
    pub performance_package: Option<String>,
    pub plg: bool,
    pub pws: bool,
    pub rear_drive_unit: String,
    pub rear_seat_heaters: i64,
    pub rear_seat_type: i64,
    pub rhd: bool,
    pub roof_color: String,
    pub seat_type: Option<i8>,
    pub spoiler_type: String,
    pub sun_roof_installed: Option<u8>,
    pub supports_qr_pairing: bool,
    pub third_row_seats: String,
    pub timestamp: i64,
    pub trim_badging: String,
    pub use_range_badging: bool,
    pub utc_offset: i64,
    pub webcam_selfie_supported: bool,
    pub webcam_supported: bool,
    pub wheel_type: String,
}

impl VehicleConfig {
    /// Whether `other` holds the same values, field by field.
    pub open spec fn same_as(&self, other: &VehicleConfig) -> bool {
        &&& opt_text(self.aux_park_lamps) == opt_text(other.aux_park_lamps)
        &&& self.badge_version == other.badge_version
        &&& self.can_accept_navigation_requests == other.can_accept_navigation_requests
        &&& self.can_actuate_trunks == other.can_actuate_trunks
        &&& self.car_special_type@ == other.car_special_type@
        &&& self.car_type@ == other.car_type@
        &&& self.charge_port_type@ == other.charge_port_type@
        &&& self.cop_user_set_temp_supported == other.cop_user_set_temp_supported
        &&& self.dashcam_clip_save_supported == other.dashcam_clip_save_supported
        &&& self.default_charge_to_max == other.default_charge_to_max
        &&& self.driver_assist@ == other.driver_assist@
        &&& self.ece_restrictions == other.ece_restrictions
        &&& self.efficiency_package@ == other.efficiency_package@
        &&& self.eu_vehicle == other.eu_vehicle
        &&& self.exterior_color@ == other.exterior_color@
        &&& opt_text(self.exterior_trim) == opt_text(other.exterior_trim)
        &&& self.exterior_trim_override@ == other.exterior_trim_override@
        &&& self.has_air_suspension == other.has_air_suspension
        &&& self.has_ludicrous_mode == other.has_ludicrous_mode
        &&& self.has_seat_cooling == other.has_seat_cooling
        &&& self.headlamp_type@ == other.headlamp_type@
        &&& self.interior_trim_type@ == other.interior_trim_type@
        &&& self.key_version == other.key_version
        &&& self.motorized_charge_port == other.motorized_charge_port
        &&& self.paint_color_override@ == other.paint_color_override@
        &&& opt_text(self.performance_package) == opt_text(other.performance_package)
        &&& self.plg == other.plg
        &&& self.pws == other.pws
        &&& self.rear_drive_unit@ == other.rear_drive_unit@
        &&& self.rear_seat_heaters == other.rear_seat_heaters
        &&& self.rear_seat_type == other.rear_seat_type
        &&& self.rhd == other.rhd
        &&& self.roof_color@ == other.roof_color@
        &&& self.seat_type == other.seat_type
        &&& self.spoiler_type@ == other.spoiler_type@
        &&& self.sun_roof_installed == other.sun_roof_installed
        &&& self.supports_qr_pairing == other.supports_qr_pairing
        &&& self.third_row_seats@ == other.third_row_seats@
        &&& self.timestamp == other.timestamp
        &&& self.trim_badging@ == other.trim_badging@
        &&& self.use_range_badging == other.use_range_badging
        &&& self.utc_offset == other.utc_offset
        &&& self.webcam_selfie_supported == other.webcam_selfie_supported
        &&& self.webcam_supported == other.webcam_supported
        &&& self.wheel_type@ == other.wheel_type@
    }
}

impl Clone for VehicleConfig {
    fn clone(&self) -> (r: Self)
        ensures
            r.same_as(self),
    {
        VehicleConfig {
            aux_park_lamps: clone_text(&self.aux_park_lamps),
            badge_version: self.badge_version,
            can_accept_navigation_requests: self.can_accept_navigation_requests,
            can_actuate_trunks: self.can_actuate_trunks,
            car_special_type: self.car_special_type.as_str().to_owned(),
            car_type: self.car_type.as_str().to_owned(),
            charge_port_type: self.charge_port_type.as_str().to_owned(),
            cop_user_set_temp_supported: self.cop_user_set_temp_supported,
            dashcam_clip_save_supported: self.dashcam_clip_save_supported,
            default_charge_to_max: self.default_charge_to_max,
            driver_assist: self.driver_assist.as_str().to_owned(),
            ece_restrictions: self.ece_restrictions,
            efficiency_package: self.efficiency_package.as_str().to_owned(),
            eu_vehicle: self.eu_vehicle,
            exterior_color: self.exterior_color.as_str().to_owned(),
            exterior_trim: clone_text(&self.exterior_trim),
            exterior_trim_override: self.exterior_trim_override.as_str().to_owned(),
            has_air_suspension: self.has_air_suspension,
            has_ludicrous_mode: self.has_ludicrous_mode,
            has_seat_cooling: self.has_seat_cooling,
            headlamp_type: self.headlamp_type.as_str().to_owned(),
            interior_trim_type: self.interior_trim_type.as_str().to_owned(),
            key_version: self.key_version,
            motorized_charge_port: self.motorized_charge_port,
            paint_color_override: self.paint_color_override.as_str().to_owned(),
            performance_package: clone_text(&self.performance_package),
            plg: self.plg,
            pws: self.pws,
            rear_drive_unit: self.rear_drive_unit.as_str().to_owned(),
            rear_seat_heaters: self.rear_seat_heaters,
            rear_seat_type: self.rear_seat_type,
            rhd: self.rhd,
            roof_color: self.roof_color.as_str().to_owned(),
            seat_type: self.seat_type,
            spoiler_type: self.spoiler_type.as_str().to_owned(),
            sun_roof_installed: self.sun_roof_installed,
            supports_qr_pairing: self.supports_qr_pairing,
            third_row_seats: self.third_row_seats.as_str().to_owned(),
            timestamp: self.timestamp,
            trim_badging: self.trim_badging.as_str().to_owned(),
            use_range_badging: self.use_range_badging,
            utc_offset: self.utc_offset,
            webcam_selfie_supported: self.webcam_selfie_supported,
            webcam_supported: self.webcam_supported,
            wheel_type: self.wheel_type.as_str().to_owned(),
        }
    }
}

/// What the media player is playing.
#[derive(Debug, PartialEq, Eq)]
pub struct MediaInfo {
    pub a2dp_source_name: String,
    pub audio_volume: Decimal,
    pub audio_volume_increment: Decimal,
    pub audio_volume_max: Decimal,
    pub media_playback_status: String,
    pub now_playing_album: String,
    pub now_playing_artist: String,
    pub now_playing_duration: i64,
    pub now_playing_elapsed: i64,
    pub now_playing_source: String,
    pub now_playing_station: String,
    pub now_playing_title: String,
}

impl MediaInfo {
    /// Whether `other` holds the same values, field by field.
    pub open spec fn same_as(&self, other: &MediaInfo) -> bool {
        &&& self.a2dp_source_name@ == other.a2dp_source_name@
        &&& self.audio_volume == other.audio_volume
        &&& self.audio_volume_increment == other.audio_volume_increment
        &&& self.audio_volume_max == other.audio_volume_max
        &&& self.media_playback_status@ == other.media_playback_status@
        &&& self.now_playing_album@ == other.now_playing_album@
        &&& self.now_playing_artist@ == other.now_playing_artist@
        &&& self.now_playing_duration == other.now_playing_duration
        &&& self.now_playing_elapsed == other.now_playing_elapsed
        &&& self.now_playing_source@ == other.now_playing_source@
        &&& self.now_playing_station@ == other.now_playing_station@
        &&& self.now_playing_title@ == other.now_playing_title@
    }
}

impl Clone for MediaInfo {
    fn clone(&self) -> (r: Self)
        ensures
            r.same_as(self),
    {
        MediaInfo {
            a2dp_source_name: self.a2dp_source_name.as_str().to_owned(),
            audio_volume: self.audio_volume,
            audio_volume_increment: self.audio_volume_increment,
            audio_volume_max: self.audio_volume_max,
            media_playback_status: self.media_playback_status.as_str().to_owned(),
            now_playing_album: self.now_playing_album.as_str().to_owned(),
            now_playing_artist: self.now_playing_artist.as_str().to_owned(),
            now_playing_duration: self.now_playing_duration,
            now_playing_elapsed: self.now_playing_elapsed,
            now_playing_source: self.now_playing_source.as_str().to_owned(),
            now_playing_station: self.now_playing_station.as_str().to_owned(),
            now_playing_title: self.now_playing_title.as_str().to_owned(),
        }
    }
}

/// Whether the media player may be controlled remotely.
#[derive(Debug, PartialEq, Eq)]
pub struct MediaState {
    pub remote_control_enabled: bool,
}

impl MediaState {
    /// Whether `other` holds the same values, field by field.
    pub open spec fn same_as(&self, other: &MediaState) -> bool {
        &&& self.remote_control_enabled == other.remote_control_enabled
    }
}

impl Clone for MediaState {
    fn clone(&self) -> (r: Self)
        ensures
            r.same_as(self),
    {
        MediaState {
            remote_control_enabled: self.remote_control_enabled,
        }
    }
}

/// The progress of a software update.
#[derive(Debug, PartialEq, Eq)]
pub struct SoftwareUpdate {
    pub download_perc: i64,
    pub expected_duration_sec: i64,
    pub install_perc: i64,
    pub status: String,
    pub version: String,
}

impl SoftwareUpdate {
    /// Whether `other` holds the same values, field by field.
    pub open spec fn same_as(&self, other: &SoftwareUpdate) -> bool {
        &&& self.download_perc == other.download_perc
        &&& self.expected_duration_sec == other.expected_duration_sec
        &&& self.install_perc == other.install_perc
        &&& self.status@ == other.status@
        &&& self.version@ == other.version@
    }
}

impl Clone for SoftwareUpdate {
    fn clone(&self) -> (r: Self)
        ensures
            r.same_as(self),
    {
        SoftwareUpdate {
            download_perc: self.download_perc,
            expected_duration_sec: self.expected_duration_sec,
            install_perc: self.install_perc,
            status: self.status.as_str().to_owned(),
            version: self.version.as_str().to_owned(),
        }
    }
}

/// The speed limit that the driver may have set.
#[derive(Debug, PartialEq, Eq)]
pub struct SpeedLimitMode {
    pub active: bool,
    pub current_limit_mph: Decimal,
    pub max_limit_mph: Decimal,
    pub min_limit_mph: Decimal,
    pub pin_code_set: bool,
}

impl SpeedLimitMode {
    /// Whether `other` holds the same values, field by field.
    pub open spec fn same_as(&self, other: &SpeedLimitMode) -> bool {
        &&& self.active == other.active
        &&& self.current_limit_mph == other.current_limit_mph
        &&& self.max_limit_mph == other.max_limit_mph
        &&& self.min_limit_mph == other.min_limit_mph
        &&& self.pin_code_set == other.pin_code_set
    }
}

impl Clone for SpeedLimitMode {
    fn clone(&self) -> (r: Self)
        ensures
            r.same_as(self),
    {
        SpeedLimitMode {
            active: self.active,
            current_limit_mph: self.current_limit_mph,
            max_limit_mph: self.max_limit_mph,
            min_limit_mph: self.min_limit_mph,
            pin_code_set: self.pin_code_set,
        }
    }
}

/// Doors, windows, software and the rest of the body.
#[derive(Debug, PartialEq, Eq)]
pub struct VehicleState {
    pub api_version: i64,
    pub autopark_state_v3: Option<String>,
    pub autopark_style: String,
    pub calendar_supported: bool,
    pub car_version: String,
    pub center_display_state: i64,
    pub dashcam_clip_save_available: bool,
    pub dashcam_state: String,
    pub df: u8,
    pub dr: u8,
    pub fd_window: i64,
    pub feature_bitmask: String,
    pub fp_window: i64,
    pub ft: u8,
    pub homelink_device_count: Option<u8>,
    pub homelink_nearby: Option<bool>,
    pub is_user_present: bool,
    pub last_autopark_error: String,
    pub locked: bool,
    pub media_info: MediaInfo,
    pub media_state: MediaState,
    pub notifications_supported: bool,
    pub odometer: Decimal,
    pub parsed_calendar_supported: bool,
    pub pf: u8,
    pub pr: u8,
    pub rd_window: i64,
    pub remote_start: bool,
    pub remote_start_enabled: bool,
    pub remote_start_supported: bool,
    pub rp_window: i64,
    pub rt: u8,
    pub santa_mode: i64,
    pub sentry_mode: Option<bool>,
    pub sentry_mode_available: Option<bool>,
    pub service_mode: bool,
    pub service_mode_plus: bool,
    pub smart_summon_available: bool,
    pub software_update: SoftwareUpdate,
    pub speed_limit_mode: SpeedLimitMode,
    pub summon_standby_mode_enabled: bool,
    pub timestamp: i64,
    pub tpms_hard_warning_fl: bool,
    pub tpms_hard_warning_fr: bool,
    pub tpms_hard_warning_rl: bool,
    pub tpms_hard_warning_rr: bool,
    pub tpms_last_seen_pressure_time_fl: Option<Timestamp>,
    pub tpms_last_seen_pressure_time_fr: Option<Timestamp>,
    pub tpms_last_seen_pressure_time_rl: Option<Timestamp>,
    pub tpms_last_seen_pressure_time_rr: Option<Timestamp>,
    pub tpms_pressure_fl: Decimal,
    pub tpms_pressure_fr: Decimal,
    pub tpms_pressure_rl: Decimal,
    pub tpms_pressure_rr: Decimal,
    pub tpms_rcp_front_value: Decimal,
    pub tpms_rcp_rear_value: Decimal,
    pub tpms_soft_warning_fl: bool,
    pub tpms_soft_warning_fr: bool,
    pub tpms_soft_warning_rl: bool,
    pub tpms_soft_warning_rr: bool,
    pub valet_mode: bool,
    pub valet_pin_needed: bool,
    pub vehicle_name: Option<String>,
    pub vehicle_self_test_progress: Option<i64>,
    pub vehicle_self_test_requested: Option<bool>,
    pub webcam_available: bool,
}

impl VehicleState {
    /// Whether `other` holds the same values, field by field.
    pub open spec fn same_as(&self, other: &VehicleState) -> bool {
        &&& self.api_version == other.api_version
        &&& opt_text(self.autopark_state_v3) == opt_text(other.autopark_state_v3)
        &&& self.autopark_style@ == other.autopark_style@
        &&& self.calendar_supported == other.calendar_supported
        &&& self.car_version@ == other.car_version@
        &&& self.center_display_state == other.center_display_state
        &&& self.dashcam_clip_save_available == other.dashcam_clip_save_available
        &&& self.dashcam_state@ == other.dashcam_state@
        &&& self.df == other.df
        &&& self.dr == other.dr
        &&& self.fd_window == other.fd_window
        &&& self.feature_bitmask@ == other.feature_bitmask@
        &&& self.fp_window == other.fp_window
        &&& self.ft == other.ft
        &&& self.homelink_device_count == other.homelink_device_count
        &&& self.homelink_nearby == other.homelink_nearby
        &&& self.is_user_present == other.is_user_present
        &&& self.last_autopark_error@ == other.last_autopark_error@
        &&& self.locked == other.locked
        &&& self.media_info.same_as(&other.media_info)
        &&& self.media_state.same_as(&other.media_state)
        &&& self.notifications_supported == other.notifications_supported
        &&& self.odometer == other.odometer
        &&& self.parsed_calendar_supported == other.parsed_calendar_supported
        &&& self.pf == other.pf
        &&& self.pr == other.pr
        &&& self.rd_window == other.rd_window
        &&& self.remote_start == other.remote_start
        &&& self.remote_start_enabled == other.remote_start_enabled
        &&& self.remote_start_supported == other.remote_start_supported
        &&& self.rp_window == other.rp_window
        &&& self.rt == other.rt
        &&& self.santa_mode == other.santa_mode
        &&& self.sentry_mode == other.sentry_mode
        &&& self.sentry_mode_available == other.sentry_mode_available
        &&& self.service_mode == other.service_mode
        &&& self.service_mode_plus == other.service_mode_plus
        &&& self.smart_summon_available == other.smart_summon_available
        &&& self.software_update.same_as(&other.software_update)
        &&& self.speed_limit_mode.same_as(&other.speed_limit_mode)
        &&& self.summon_standby_mode_enabled == other.summon_standby_mode_enabled
        &&& self.timestamp == other.timestamp
        &&& self.tpms_hard_warning_fl == other.tpms_hard_warning_fl
        &&& self.tpms_hard_warning_fr == other.tpms_hard_warning_fr
        &&& self.tpms_hard_warning_rl == other.tpms_hard_warning_rl
        &&& self.tpms_hard_warning_rr == other.tpms_hard_warning_rr
        &&& self.tpms_last_seen_pressure_time_fl == other.tpms_last_seen_pressure_time_fl
        &&& self.tpms_last_seen_pressure_time_fr == other.tpms_last_seen_pressure_time_fr
        &&& self.tpms_last_seen_pressure_time_rl == other.tpms_last_seen_pressure_time_rl
        &&& self.tpms_last_seen_pressure_time_rr == other.tpms_last_seen_pressure_time_rr
        &&& self.tpms_pressure_fl == other.tpms_pressure_fl
        &&& self.tpms_pressure_fr == other.tpms_pressure_fr
        &&& self.tpms_pressure_rl == other.tpms_pressure_rl
        &&& self.tpms_pressure_rr == other.tpms_pressure_rr
        &&& self.tpms_rcp_front_value == other.tpms_rcp_front_value
        &&& self.tpms_rcp_rear_value == other.tpms_rcp_rear_value
        &&& self.tpms_soft_warning_fl == other.tpms_soft_warning_fl
        &&& self.tpms_soft_warning_fr == other.tpms_soft_warning_fr
        &&& self.tpms_soft_warning_rl == other.tpms_soft_warning_rl
        &&& self.tpms_soft_warning_rr == other.tpms_soft_warning_rr
        &&& self.valet_mode == other.valet_mode
        &&& self.valet_pin_needed == other.valet_pin_needed
        &&& opt_text(self.vehicle_name) == opt_text(other.vehicle_name)
        &&& self.vehicle_self_test_progress == other.vehicle_self_test_progress
        &&& self.vehicle_self_test_requested == other.vehicle_self_test_requested
        &&& self.webcam_available == other.webcam_available
    }
}

impl Clone for VehicleState {
    fn clone(&self) -> (r: Self)
        ensures
            r.same_as(self),
    {
        VehicleState {
            api_version: self.api_version,
            autopark_state_v3: clone_text(&self.autopark_state_v3),
            autopark_style: self.autopark_style.as_str().to_owned(),
            calendar_supported: self.calendar_supported,
            car_version: self.car_version.as_str().to_owned(),
            center_display_state: self.center_display_state,
            dashcam_clip_save_available: self.dashcam_clip_save_available,
            dashcam_state: self.dashcam_state.as_str().to_owned(),
            df: self.df,
            dr: self.dr,
            fd_window: self.fd_window,
            feature_bitmask: self.feature_bitmask.as_str().to_owned(),
            fp_window: self.fp_window,
            ft: self.ft,
            homelink_device_count: self.homelink_device_count,
            homelink_nearby: self.homelink_nearby,
            is_user_present: self.is_user_present,
            last_autopark_error: self.last_autopark_error.as_str().to_owned(),
            locked: self.locked,
            media_info: self.media_info.clone(),
            media_state: self.media_state.clone(),
            notifications_supported: self.notifications_supported,
            odometer: self.odometer,
            parsed_calendar_supported: self.parsed_calendar_supported,
            pf: self.pf,
            pr: self.pr,
            rd_window: self.rd_window,
            remote_start: self.remote_start,
            remote_start_enabled: self.remote_start_enabled,
            remote_start_supported: self.remote_start_supported,
            rp_window: self.rp_window,
            rt: self.rt,
            santa_mode: self.santa_mode,
            sentry_mode: self.sentry_mode,
            sentry_mode_available: self.sentry_mode_available,
            service_mode: self.service_mode,
            service_mode_plus: self.service_mode_plus,
            smart_summon_available: self.smart_summon_available,
            software_update: self.software_update.clone(),
            speed_limit_mode: self.speed_limit_mode.clone(),
            summon_standby_mode_enabled: self.summon_standby_mode_enabled,
            timestamp: self.timestamp,
            tpms_hard_warning_fl: self.tpms_hard_warning_fl,
            tpms_hard_warning_fr: self.tpms_hard_warning_fr,
            tpms_hard_warning_rl: self.tpms_hard_warning_rl,
            tpms_hard_warning_rr: self.tpms_hard_warning_rr,
            tpms_last_seen_pressure_time_fl: self.tpms_last_seen_pressure_time_fl,
            tpms_last_seen_pressure_time_fr: self.tpms_last_seen_pressure_time_fr,
            tpms_last_seen_pressure_time_rl: self.tpms_last_seen_pressure_time_rl,
            tpms_last_seen_pressure_time_rr: self.tpms_last_seen_pressure_time_rr,
            tpms_pressure_fl: self.tpms_pressure_fl,
            tpms_pressure_fr: self.tpms_pressure_fr,
            tpms_pressure_rl: self.tpms_pressure_rl,
            tpms_pressure_rr: self.tpms_pressure_rr,
            tpms_rcp_front_value: self.tpms_rcp_front_value,
            tpms_rcp_rear_value: self.tpms_rcp_rear_value,
            tpms_soft_warning_fl: self.tpms_soft_warning_fl,
            tpms_soft_warning_fr: self.tpms_soft_warning_fr,
            tpms_soft_warning_rl: self.tpms_soft_warning_rl,
            tpms_soft_warning_rr: self.tpms_soft_warning_rr,
            valet_mode: self.valet_mode,
            valet_pin_needed: self.valet_pin_needed,
            vehicle_name: clone_text(&self.vehicle_name),
            vehicle_self_test_progress: self.vehicle_self_test_progress,
            vehicle_self_test_requested: self.vehicle_self_test_requested,
            webcam_available: self.webcam_available,
        }
    }
}

} // verus!
