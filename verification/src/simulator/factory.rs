//! The data of a vehicle as it is when its simulator starts: parked with a
//! battery at 42 %, nothing plugged in, nobody inside.

use crate::decimal::Decimal;
use crate::records::{
    ChargeState, ClimateState, DriveState, GranularAccess, GuiSettings, MediaInfo, MediaState,
    SoftwareUpdate, SpeedLimitMode, VehicleConfig, VehicleState,
};
use crate::types::{ChargingStateEnum, Timestamp};
use vstd::prelude::*;

verus! {

/// Whether `r` is the access grant of a vehicle that has just been set up.
pub open spec fn is_factory_granular_access(r: GranularAccess) -> bool {
    &&& r.hide_private == false
}

/// The access grant of a vehicle that has just been set up.
pub fn factory_granular_access() -> (r: GranularAccess)
    ensures
        is_factory_granular_access(r),
{
    GranularAccess {
        hide_private: false,
    }
}

/// Whether `r` is the charge state of a vehicle that has just been set up at `timestamp`.
pub open spec fn is_factory_charge_state(r: ChargeState, timestamp: Timestamp) -> bool {
    &&& r.battery_heater_on == false
    &&& r.battery_level == 42
    &&& r.battery_range.micros == 84_000_000
    &&& r.charge_amps == 48
    &&& r.charge_current_request == 48
    &&& r.charge_current_request_max == 48
    &&& r.charge_enable_request == true
    &&& r.charge_energy_added.micros == 48_450_000
    &&& r.charge_limit_soc == 0
    &&& r.charge_limit_soc_max == 100
    &&& r.charge_limit_soc_min == 50
    &&& r.charge_limit_soc_std == 90
    &&& r.charge_miles_added_ideal.micros == 202_000_000
    &&& r.charge_miles_added_rated.micros == 202_000_000
    &&& r.charge_port_cold_weather_mode == Some(false)
    &&& r.charge_port_color@ == "<invalid>"@
    &&& r.charge_port_door_open == false
    &&& r.charge_port_latch@ == "Engaged"@
    &&& r.charge_rate is None
    &&& r.charger_actual_current == 0
    &&& r.charger_phases is None
    &&& r.charger_pilot_current == 48
    &&& r.charger_power == 0
    &&& r.charger_voltage == 2
    &&& r.charging_state == ChargingStateEnum::Disconnected
    &&& r.conn_charge_cable@ == "<invalid>"@
    &&& r.est_battery_range.micros == 84_000_000
    &&& r.fast_charger_brand@ == "<invalid>"@
    &&& r.fast_charger_present == false
    &&& r.fast_charger_type@ == "<invalid>"@
    &&& r.ideal_battery_range.micros == 84_000_000
    &&& r.managed_charging_active == Some(false)
    &&& r.managed_charging_start_time is None
    &&& r.managed_charging_user_canceled == Some(false)
    &&& r.max_range_charge_counter == 0
    &&& r.minutes_to_full_charge == 0
    &&& r.not_enough_power_to_heat is None
    &&& r.off_peak_charging_enabled == false
    &&& r.off_peak_charging_times@ == "all_week"@
    &&& r.off_peak_hours_end_time == 360
    &&& r.preconditioning_enabled == false
    &&& r.preconditioning_times@ == "all_week"@
    &&& r.scheduled_charging_mode@ == "Off"@
    &&& r.scheduled_charging_pending == false
    &&& r.scheduled_charging_start_time is None
    &&& r.scheduled_departure_time == 1_634_914_800
    &&& r.scheduled_departure_time_minutes == 480
    &&& r.supercharger_session_trip_planner == false
    &&& r.time_to_full_charge is None
    &&& r.timestamp == timestamp
    &&& r.trip_charging == false
    &&& r.usable_battery_level == 42
    &&& r.user_charge_enable_request is None
}

/// The charge state of a vehicle that has just been set up at `timestamp`.
pub fn factory_charge_state(timestamp: Timestamp) -> (r: ChargeState)
    ensures
        is_factory_charge_state(r, timestamp),
{
    ChargeState {
        battery_heater_on: false,
        battery_level: 42,
        battery_range: Decimal { micros: 84_000_000 },
        charge_amps: 48,
        charge_current_request: 48,
        charge_current_request_max: 48,
        charge_enable_request: true,
        charge_energy_added: Decimal { micros: 48_450_000 },
        charge_limit_soc: 0,
        charge_limit_soc_max: 100,
        charge_limit_soc_min: 50,
        charge_limit_soc_std: 90,
        charge_miles_added_ideal: Decimal { micros: 202_000_000 },
        charge_miles_added_rated: Decimal { micros: 202_000_000 },
        charge_port_cold_weather_mode: Some(false),
        charge_port_color: "<invalid>".to_owned(),
        charge_port_door_open: false,
        charge_port_latch: "Engaged".to_owned(),
        charge_rate: None,
        charger_actual_current: 0,
        charger_phases: None,
        charger_pilot_current: 48,
        charger_power: 0,
        charger_voltage: 2,
        charging_state: ChargingStateEnum::Disconnected,
        conn_charge_cable: "<invalid>".to_owned(),
        est_battery_range: Decimal { micros: 84_000_000 },
        fast_charger_brand: "<invalid>".to_owned(),
        fast_charger_present: false,
        fast_charger_type: "<invalid>".to_owned(),
        ideal_battery_range: Decimal { micros: 84_000_000 },
        managed_charging_active: Some(false),
        managed_charging_start_time: None,
        managed_charging_user_canceled: Some(false),
        max_range_charge_counter: 0,
        minutes_to_full_charge: 0,
        not_enough_power_to_heat: None,
        off_peak_charging_enabled: false,
        off_peak_charging_times: "all_week".to_owned(),
        off_peak_hours_end_time: 360,
        preconditioning_enabled: false,
        preconditioning_times: "all_week".to_owned(),
        scheduled_charging_mode: "Off".to_owned(),
        scheduled_charging_pending: false,
        scheduled_charging_start_time: None,
        scheduled_departure_time: 1_634_914_800,
        scheduled_departure_time_minutes: 480,
        supercharger_session_trip_planner: false,
        time_to_full_charge: None,
        timestamp: timestamp,
        trip_charging: false,
        usable_battery_level: 42,
        user_charge_enable_request: None,
    }
}

/// Whether `r` is the climate state of a vehicle that has just been set up at `timestamp`.
pub open spec fn is_factory_climate_state(r: ClimateState, timestamp: Timestamp) -> bool {
    &&& r.allow_cabin_overheat_protection == true
    &&& r.auto_seat_climate_left == Some(false)
    &&& r.auto_seat_climate_right == Some(false)
    &&& r.auto_steering_wheel_heat == Some(false)
    &&& r.battery_heater == false
    &&& r.battery_heater_no_power is None
    &&& r.bioweapon_mode == false
    &&& r.cabin_overheat_protection@ == "On"@
    &&& r.cabin_overheat_protection_actively_cooling == Some(true)
    &&& r.climate_keeper_mode@ == "off"@
    &&& r.cop_activation_temperature@ == "High"@
    &&& r.defrost_mode == 0
    &&& r.driver_temp_setting.micros == 21_000_000
    &&& r.fan_status == 0
    &&& r.hvac_auto_request@ == "On"@
    &&& r.inside_temp.micros == 38_400_000
    &&& r.is_auto_conditioning_on == true
    &&& r.is_climate_on == false
    &&& r.is_front_defroster_on == false
    &&& r.is_preconditioning == false
    &&& r.is_rear_defroster_on == false
    &&& r.left_temp_direction == -293
    &&& r.max_avail_temp.micros == 28_000_000
    &&& r.min_avail_temp.micros == 15_000_000
    &&& r.outside_temp.micros == 36_500_000
    &&& r.passenger_temp_setting.micros == 21_000_000
    &&& r.remote_heater_control_enabled == false
    &&& r.right_temp_direction == -276
    &&& r.seat_heater_left == 0
    &&& r.seat_heater_rear_center == 0
    &&& r.seat_heater_rear_left == 0
    &&& r.seat_heater_rear_right == 0
    &&& r.seat_heater_right == 0
    &&& r.side_mirror_heaters == false
    &&& r.steering_wheel_heat_level == Some(0i64)
    &&& r.steering_wheel_heater == false
    &&& r.supports_fan_only_cabin_overheat_protection == true
    &&& r.timestamp == timestamp
    &&& r.wiper_blade_heater == false
}

/// The climate state of a vehicle that has just been set up at `timestamp`.
pub fn factory_climate_state(timestamp: Timestamp) -> (r: ClimateState)
    ensures
        is_factory_climate_state(r, timestamp),
{
    ClimateState {
        allow_cabin_overheat_protection: true,
        auto_seat_climate_left: Some(false),
        auto_seat_climate_right: Some(false),
        auto_steering_wheel_heat: Some(false),
        battery_heater: false,
        battery_heater_no_power: None,
        bioweapon_mode: false,
        cabin_overheat_protection: "On".to_owned(),
        cabin_overheat_protection_actively_cooling: Some(true),
        climate_keeper_mode: "off".to_owned(),
        cop_activation_temperature: "High".to_owned(),
        defrost_mode: 0,
        driver_temp_setting: Decimal { micros: 21_000_000 },
        fan_status: 0,
        hvac_auto_request: "On".to_owned(),
        inside_temp: Decimal { micros: 38_400_000 },
        is_auto_conditioning_on: true,
        is_climate_on: false,
        is_front_defroster_on: false,
        is_preconditioning: false,
        is_rear_defroster_on: false,
        left_temp_direction: -293,
        max_avail_temp: Decimal { micros: 28_000_000 },
        min_avail_temp: Decimal { micros: 15_000_000 },
        outside_temp: Decimal { micros: 36_500_000 },
        passenger_temp_setting: Decimal { micros: 21_000_000 },
        remote_heater_control_enabled: false,
        right_temp_direction: -276,
        seat_heater_left: 0,
        seat_heater_rear_center: 0,
        seat_heater_rear_left: 0,
        seat_heater_rear_right: 0,
        seat_heater_right: 0,
        side_mirror_heaters: false,
        steering_wheel_heat_level: Some(0),
        steering_wheel_heater: false,
        supports_fan_only_cabin_overheat_protection: true,
        timestamp: timestamp,
        wiper_blade_heater: false,
    }
}

/// Whether `r` is the drive state of a vehicle that has just been set up at `timestamp`.
pub open spec fn is_factory_drive_state(r: DriveState, timestamp: Timestamp) -> bool {
    &&& r.active_route_latitude.micros == 37_776_549
    &&& r.active_route_longitude.micros == -122_419_541
    &&& r.active_route_traffic_minutes_delay.micros == 0
    &&& r.gps_as_of == 1_692_137_422
    &&& r.heading == 0
    &&& r.latitude is Some
    &&& r.latitude->0.micros == 37_776_549
    &&& r.longitude is Some
    &&& r.longitude->0.micros == -122_419_541
    &&& r.native_latitude is None
    &&& r.native_location_supported == 1
    &&& r.native_longitude is None
    &&& r.native_type@ == "wgs"@
    &&& r.power == Some(0i32)
    &&& r.shift_state is None
    &&& r.speed is Some
    &&& r.speed->0.micros == 0
    &&& r.timestamp == timestamp
}

/// The drive state of a vehicle that has just been set up at `timestamp`.
pub fn factory_drive_state(timestamp: Timestamp) -> (r: DriveState)
    ensures
        is_factory_drive_state(r, timestamp),
{
    DriveState {
        active_route_latitude: Decimal { micros: 37_776_549 },
        active_route_longitude: Decimal { micros: -122_419_541 },
        active_route_traffic_minutes_delay: Decimal { micros: 0 },
        gps_as_of: 1_692_137_422,
        heading: 0,
        latitude: Some(Decimal { micros: 37_776_549 }),
        longitude: Some(Decimal { micros: -122_419_541 }),
        native_latitude: None,
        native_location_supported: 1,
        native_longitude: None,
        native_type: "wgs".to_owned(),
        power: Some(0),
        shift_state: None,
        speed: Some(Decimal { micros: 0 }),
        timestamp: timestamp,
    }
}

/// Whether `r` is the display settings of a vehicle that has just been set up at `timestamp`.
pub open spec fn is_factory_gui_settings(r: GuiSettings, timestamp: Timestamp) -> bool {
    &&& r.gui_24_hour_time == false
    &&& r.gui_charge_rate_units@ == "mi/hr"@
    &&& r.gui_distance_units@ == "mi/hr"@
    &&& r.gui_range_display@ == "Rated"@
    &&& r.gui_temperature_units@ == "F"@
    &&& r.gui_tirepressure_units@ == "Psi"@
    &&& r.show_range_units == false
    &&& r.timestamp == timestamp
}

/// The display settings of a vehicle that has just been set up at `timestamp`.
pub fn factory_gui_settings(timestamp: Timestamp) -> (r: GuiSettings)
    ensures
        is_factory_gui_settings(r, timestamp),
{
    GuiSettings {
        gui_24_hour_time: false,
        gui_charge_rate_units: "mi/hr".to_owned(),
        gui_distance_units: "mi/hr".to_owned(),
        gui_range_display: "Rated".to_owned(),
        gui_temperature_units: "F".to_owned(),
        gui_tirepressure_units: "Psi".to_owned(),
        show_range_units: false,
        timestamp: timestamp,
    }
}

/// Whether `r` is the configuration of a vehicle that has just been set up at `timestamp`.
pub open spec fn is_factory_vehicle_config(r: VehicleConfig, timestamp: Timestamp) -> bool {
    &&& r.aux_park_lamps is Some
    &&& r.aux_park_lamps->0@ == "NaPremium"@
    &&& r.badge_version is None
    &&& r.can_accept_navigation_requests == true
    &&& r.can_actuate_trunks == true
    &&& r.car_special_type@ == "base"@
    &&& r.car_type@ == "modely"@
    &&& r.charge_port_type@ == "US"@
    &&& r.cop_user_set_temp_supported == true
    &&& r.dashcam_clip_save_supported == true
    &&& r.default_charge_to_max == false
    &&& r.driver_assist@ == "TeslaAP3"@
    &&& r.ece_restrictions == false
    &&& r.efficiency_package@ == "MY2021"@
    &&& r.eu_vehicle == false
    &&& r.exterior_color@ == "MidnightSilver"@
    &&& r.exterior_trim is Some
    &&& r.exterior_trim->0@ == "Black"@
    &&& r.exterior_trim_override@ == Seq::<char>::empty()
    &&& r.has_air_suspension == false
    &&& r.has_ludicrous_mode == false
    &&& r.has_seat_cooling == false
    &&& r.headlamp_type@ == "Premium"@
    &&& r.interior_trim_type@ == "Black2"@
    &&& r.key_version == Some(2u8)
    &&& r.motorized_charge_port == true
    &&& r.paint_color_override@ == "19,20,22,0.8,0.04"@
    &&& r.performance_package is Some
    &&& r.performance_package->0@ == "Base"@
    &&& r.plg == true
    &&& r.pws == true
    &&& r.rear_drive_unit@ == "PM216MOSFET"@
    &&& r.rear_seat_heaters == 1
    &&& r.rear_seat_type == 0
    &&& r.rhd == false
    &&& r.roof_color@ == "RoofColorGlass"@
    &&& r.seat_type is None
    &&& r.spoiler_type@ == "None"@
    &&& r.sun_roof_installed is None
    &&& r.supports_qr_pairing == false
    &&& r.third_row_seats@ == "None"@
    &&& r.timestamp == timestamp
    &&& r.trim_badging@ == "74d"@
    &&& r.use_range_badging == true
    &&& r.utc_offset == -25200
    &&& r.webcam_selfie_supported == true
    &&& r.webcam_supported == true
    &&& r.wheel_type@ == "Apollo19"@
}

/// The configuration of a vehicle that has just been set up at `timestamp`.
pub fn factory_vehicle_config(timestamp: Timestamp) -> (r: VehicleConfig)
    ensures
        is_factory_vehicle_config(r, timestamp),
{
    VehicleConfig {
        aux_park_lamps: Some("NaPremium".to_owned()),
        badge_version: None,
        can_accept_navigation_requests: true,
        can_actuate_trunks: true,
        car_special_type: "base".to_owned(),
        car_type: "modely".to_owned(),
        charge_port_type: "US".to_owned(),
        cop_user_set_temp_supported: true,
        dashcam_clip_save_supported: true,
        default_charge_to_max: false,
        driver_assist: "TeslaAP3".to_owned(),
        ece_restrictions: false,
        efficiency_package: "MY2021".to_owned(),
        eu_vehicle: false,
        exterior_color: "MidnightSilver".to_owned(),
        exterior_trim: Some("Black".to_owned()),
        exterior_trim_override: String::new(),
        has_air_suspension: false,
        has_ludicrous_mode: false,
        has_seat_cooling: false,
        headlamp_type: "Premium".to_owned(),
        interior_trim_type: "Black2".to_owned(),
        key_version: Some(2),
        motorized_charge_port: true,
        paint_color_override: "19,20,22,0.8,0.04".to_owned(),
        performance_package: Some("Base".to_owned()),
        plg: true,
        pws: true,
        rear_drive_unit: "PM216MOSFET".to_owned(),
        rear_seat_heaters: 1,
        rear_seat_type: 0,
        rhd: false,
        roof_color: "RoofColorGlass".to_owned(),
        seat_type: None,
        spoiler_type: "None".to_owned(),
        sun_roof_installed: None,
        supports_qr_pairing: false,
        third_row_seats: "None".to_owned(),
        timestamp: timestamp,
        trim_badging: "74d".to_owned(),
        use_range_badging: true,
        utc_offset: -25200,
        webcam_selfie_supported: true,
        webcam_supported: true,
        wheel_type: "Apollo19".to_owned(),
    }
}

/// Whether `r` is the media information of a vehicle that has just been set up.
pub open spec fn is_factory_media_info(r: MediaInfo) -> bool {
    &&& r.a2dp_source_name@ == "Pixel 6"@
    &&& r.audio_volume.micros == 2_666_700
    &&& r.audio_volume_increment.micros == 333_333
    &&& r.audio_volume_max.micros == 10_333_333
    &&& r.media_playback_status@ == "Playing"@
    &&& r.now_playing_album@ == "KQED"@
    &&& r.now_playing_artist@ == "PBS Newshour on KQED FM"@
    &&& r.now_playing_duration == 0
    &&& r.now_playing_elapsed == 0
    &&& r.now_playing_source@ == "13"@
    &&& r.now_playing_station@ == "88.5 FM KQED"@
    &&& r.now_playing_title@ == "PBS Newshour"@
}

/// The media information of a vehicle that has just been set up.
pub fn factory_media_info() -> (r: MediaInfo)
    ensures
        is_factory_media_info(r),
{
    MediaInfo {
        a2dp_source_name: "Pixel 6".to_owned(),
        audio_volume: Decimal { micros: 2_666_700 },
        audio_volume_increment: Decimal { micros: 333_333 },
        audio_volume_max: Decimal { micros: 10_333_333 },
        media_playback_status: "Playing".to_owned(),
        now_playing_album: "KQED".to_owned(),
        now_playing_artist: "PBS Newshour on KQED FM".to_owned(),
        now_playing_duration: 0,
        now_playing_elapsed: 0,
        now_playing_source: "13".to_owned(),
        now_playing_station: "88.5 FM KQED".to_owned(),
        now_playing_title: "PBS Newshour".to_owned(),
    }
}

/// Whether `r` is the media state of a vehicle that has just been set up.
pub open spec fn is_factory_media_state(r: MediaState) -> bool {
    &&& r.remote_control_enabled == true
}

/// The media state of a vehicle that has just been set up.
pub fn factory_media_state() -> (r: MediaState)
    ensures
        is_factory_media_state(r),
{
    MediaState {
        remote_control_enabled: true,
    }
}

/// Whether `r` is the software update state of a vehicle that has just been set up.
pub open spec fn is_factory_software_update(r: SoftwareUpdate) -> bool {
    &&& r.download_perc == 0
    &&& r.expected_duration_sec == 2700
    &&& r.install_perc == 1
    &&& r.status@ == Seq::<char>::empty()
    &&& r.version@ == " "@
}

/// The software update state of a vehicle that has just been set up.
pub fn factory_software_update() -> (r: SoftwareUpdate)
    ensures
        is_factory_software_update(r),
{
    SoftwareUpdate {
        download_perc: 0,
        expected_duration_sec: 2700,
        install_perc: 1,
        status: String::new(),
        version: " ".to_owned(),
    }
}

/// Whether `r` is the speed limit mode of a vehicle that has just been set up.
pub open spec fn is_factory_speed_limit_mode(r: SpeedLimitMode) -> bool {
    &&& r.active == false
    &&& r.current_limit_mph.micros == 85_000_000
    &&& r.max_limit_mph.micros == 120_000_000
    &&& r.min_limit_mph.micros == 50_000_000
    &&& r.pin_code_set == false
}

/// The speed limit mode of a vehicle that has just been set up.
pub fn factory_speed_limit_mode() -> (r: SpeedLimitMode)
    ensures
        is_factory_speed_limit_mode(r),
{
    SpeedLimitMode {
        active: false,
        current_limit_mph: Decimal { micros: 85_000_000 },
        max_limit_mph: Decimal { micros: 120_000_000 },
        min_limit_mph: Decimal { micros: 50_000_000 },
        pin_code_set: false,
    }
}

/// Whether `r` is the body state of a vehicle that has just been set up at `timestamp`.
pub open spec fn is_factory_vehicle_state(
    r: VehicleState,
    timestamp: Timestamp,
    display_name: Seq<char>,
) -> bool {
    &&& r.api_version == 54
    &&& r.autopark_state_v3 is Some
    &&& r.autopark_state_v3->0@ == "ready"@
    &&& r.autopark_style@ == "dead_man"@
    &&& r.calendar_supported == true
    &&& r.car_version@ == "2023.7.20 7910d26d5c64"@
    &&& r.center_display_state == 0
    &&& r.dashcam_clip_save_available == false
    &&& r.dashcam_state@ == "Unavailable"@
    &&& r.df == 0
    &&& r.dr == 0
    &&& r.fd_window == 0
    &&& r.feature_bitmask@ == "15dffbff,0"@
    &&& r.fp_window == 0
    &&& r.ft == 0
    &&& r.homelink_device_count == Some(3u8)
    &&& r.homelink_nearby == Some(false)
    &&& r.is_user_present == false
    &&& r.last_autopark_error@ == "no_error"@
    &&& r.locked == true
    &&& is_factory_media_info(r.media_info)
    &&& is_factory_media_state(r.media_state)
    &&& r.notifications_supported == true
    &&& r.odometer.micros == 0
    &&& r.parsed_calendar_supported == true
    &&& r.pf == 0
    &&& r.pr == 0
    &&& r.rd_window == 0
    &&& r.remote_start == false
    &&& r.remote_start_enabled == true
    &&& r.remote_start_supported == true
    &&& r.rp_window == 0
    &&& r.rt == 0
    &&& r.santa_mode == 0
    &&& r.sentry_mode == Some(false)
    &&& r.sentry_mode_available == Some(true)
    &&& r.service_mode == false
    &&& r.service_mode_plus == false
    &&& r.smart_summon_available == true
    &&& is_factory_software_update(r.software_update)
    &&& is_factory_speed_limit_mode(r.speed_limit_mode)
    &&& r.summon_standby_mode_enabled == false
    &&& r.timestamp == timestamp
    &&& r.tpms_hard_warning_fl == false
    &&& r.tpms_hard_warning_fr == false
    &&& r.tpms_hard_warning_rl == false
    &&& r.tpms_hard_warning_rr == false
    &&& r.tpms_last_seen_pressure_time_fl == Some(timestamp)
    &&& r.tpms_last_seen_pressure_time_fr == Some(timestamp)
    &&& r.tpms_last_seen_pressure_time_rl == Some(timestamp)
    &&& r.tpms_last_seen_pressure_time_rr == Some(timestamp)
    &&& r.tpms_pressure_fl.micros == 3_100_000
    &&& r.tpms_pressure_fr.micros == 3_100_000
    &&& r.tpms_pressure_rl.micros == 3_150_000
    &&& r.tpms_pressure_rr.micros == 3_000_000
    &&& r.tpms_rcp_front_value.micros == 2_900_000
    &&& r.tpms_rcp_rear_value.micros == 2_900_000
    &&& r.tpms_soft_warning_fl == false
    &&& r.tpms_soft_warning_fr == false
    &&& r.tpms_soft_warning_rl == false
    &&& r.tpms_soft_warning_rr == false
    &&& r.valet_mode == false
    &&& r.valet_pin_needed == true
    &&& r.vehicle_name is Some
    &&& r.vehicle_name->0@ == display_name
    &&& r.vehicle_self_test_progress == Some(0i64)
    &&& r.vehicle_self_test_requested == Some(false)
    &&& r.webcam_available == true
}

/// The body state of a vehicle that has just been set up at `timestamp`.
pub fn factory_vehicle_state(timestamp: Timestamp, display_name: &str) -> (r: VehicleState)
    ensures
        is_factory_vehicle_state(r, timestamp, display_name@),
{
    VehicleState {
        api_version: 54,
        autopark_state_v3: Some("ready".to_owned()),
        autopark_style: "dead_man".to_owned(),
        calendar_supported: true,
        car_version: "2023.7.20 7910d26d5c64".to_owned(),
        center_display_state: 0,
        dashcam_clip_save_available: false,
        dashcam_state: "Unavailable".to_owned(),
        df: 0,
        dr: 0,
        fd_window: 0,
        feature_bitmask: "15dffbff,0".to_owned(),
        fp_window: 0,
        ft: 0,
        homelink_device_count: Some(3),
        homelink_nearby: Some(false),
        is_user_present: false,
        last_autopark_error: "no_error".to_owned(),
        locked: true,
        media_info: factory_media_info(),
        media_state: factory_media_state(),
        notifications_supported: true,
        odometer: Decimal { micros: 0 },
        parsed_calendar_supported: true,
        pf: 0,
        pr: 0,
        rd_window: 0,
        remote_start: false,
        remote_start_enabled: true,
        remote_start_supported: true,
        rp_window: 0,
        rt: 0,
        santa_mode: 0,
        sentry_mode: Some(false),
        sentry_mode_available: Some(true),
        service_mode: false,
        service_mode_plus: false,
        smart_summon_available: true,
        software_update: factory_software_update(),
        speed_limit_mode: factory_speed_limit_mode(),
        summon_standby_mode_enabled: false,
        timestamp: timestamp,
        tpms_hard_warning_fl: false,
        tpms_hard_warning_fr: false,
        tpms_hard_warning_rl: false,
        tpms_hard_warning_rr: false,
        tpms_last_seen_pressure_time_fl: Some(timestamp),
        tpms_last_seen_pressure_time_fr: Some(timestamp),
        tpms_last_seen_pressure_time_rl: Some(timestamp),
        tpms_last_seen_pressure_time_rr: Some(timestamp),
        tpms_pressure_fl: Decimal { micros: 3_100_000 },
        tpms_pressure_fr: Decimal { micros: 3_100_000 },
        tpms_pressure_rl: Decimal { micros: 3_150_000 },
        tpms_pressure_rr: Decimal { micros: 3_000_000 },
        tpms_rcp_front_value: Decimal { micros: 2_900_000 },
        tpms_rcp_rear_value: Decimal { micros: 2_900_000 },
        tpms_soft_warning_fl: false,
        tpms_soft_warning_fr: false,
        tpms_soft_warning_rl: false,
        tpms_soft_warning_rr: false,
        valet_mode: false,
        valet_pin_needed: true,
        vehicle_name: Some(display_name.to_owned()),
        vehicle_self_test_progress: Some(0),
        vehicle_self_test_requested: Some(false),
        webcam_available: true,
    }
}

} // verus!
