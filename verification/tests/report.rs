use acpitool::model::ACAdapterInfo;
use acpitool::model::BatteryInfo;
use acpitool::model::ChargingState;
use acpitool::model::Config;
use acpitool::model::PowerSupplyInfo;
use acpitool::model::Status;
use acpitool::model::ThermalSensor;
use acpitool::model::TripPoint;
use acpitool::model::Units;
use acpitool::report::battery_line_str;
use acpitool::report::decompose_duration;
use acpitool::report::format_ac_adapter_info;
use acpitool::report::format_battery_info;
use acpitool::report::format_power_supply_info;
use acpitool::report::format_thermal_zone_info;
use acpitool::report::run;

fn battery(
    name: &str,
    state: ChargingState,
    percent_tenths: u32,
    present_rate: u32,
    time_remaining_secs: u64,
    design_capacity: u32,
    last_capacity: u32,
) -> BatteryInfo {
    BatteryInfo {
        name: String::from(name),
        state,
        percent_tenths,
        present_rate,
        time_remaining_secs,
        design_capacity,
        last_capacity,
    }
}

#[test]
fn duration_decomposition_samples() {
    assert_eq!(decompose_duration(5430), (1, 30, 30));
    assert_eq!(decompose_duration(45), (0, 0, 45));
    assert_eq!(decompose_duration(3661), (1, 1, 1));
    assert_eq!(decompose_duration(0), (0, 0, 0));
    assert_eq!(decompose_duration(86399), (23, 59, 59));
    assert_eq!(decompose_duration(90 * 3600), (90, 0, 0));
}

#[test]
fn duration_round_trip_samples() {
    for s in [0u64, 1, 45, 59, 60, 3599, 3600, 5430, 86399, 86400, 123456789] {
        let (h, m, sec) = decompose_duration(s);
        assert_eq!(h * 3600 + m * 60 + sec, s);
    }
}

#[test]
fn charging_zero_rate_line() {
    let b = battery("BAT0", ChargingState::Charging, 500, 0, 5430, 5000, 4500);
    let line = battery_line_str(&b);
    assert_eq!(line, "BAT0: Charging, 50.0%, charging at zero rate");
    assert!(line.contains(", charging at zero rate"));
    // The only colon is the one after the device name: no clock is shown.
    assert_eq!(line.matches(':').count(), 1);
}

#[test]
fn charging_suffix_exact() {
    let b = battery("BAT0", ChargingState::Charging, 500, 1500, 5430, 5000, 4500);
    let line = battery_line_str(&b);
    assert_eq!(line, "BAT0: Charging, 50.0%, 01:30:30 until charged");
    assert!(line.ends_with(", 01:30:30 until charged"));
}

#[test]
fn discharging_suffix_exact() {
    let b = battery("BAT0", ChargingState::Discharging, 500, 1500, 45, 5000, 4500);
    let line = battery_line_str(&b);
    assert_eq!(line, "BAT0: Discharging, 50.0%, 00:00:45 remaining");
    assert!(line.ends_with(", 00:00:45 remaining"));
}

#[test]
fn full_suffix_empty() {
    let with_rate = battery("BAT0", ChargingState::Full, 1000, 2000, 5430, 5000, 4500);
    let without_rate = battery("BAT0", ChargingState::Full, 1000, 0, 5430, 5000, 4500);
    assert_eq!(battery_line_str(&with_rate), "BAT0: Full, 100.0%");
    assert_eq!(battery_line_str(&without_rate), "BAT0: Full, 100.0%");
}

#[test]
fn detailed_zero_design_capacity() {
    let b = battery("BAT0", ChargingState::Full, 1000, 0, 0, 0, 4500);
    let lines = format_battery_info(&b, true);
    assert_eq!(lines.len(), 2);
    assert_eq!(
        lines[1],
        "BAT0: design capacity 0 mAh, last full capacity 4500 mAh = 0%"
    );
}

#[test]
fn detailed_capacity_ratio_floor() {
    let b = battery("BAT0", ChargingState::Full, 1000, 0, 0, 5000, 4500);
    let lines = format_battery_info(&b, true);
    assert_eq!(
        lines[1],
        "BAT0: design capacity 5000 mAh, last full capacity 4500 mAh = 90%"
    );
    let tiny = battery("BAT0", ChargingState::Full, 1000, 0, 0, 3, 2);
    let lines = format_battery_info(&tiny, true);
    assert_eq!(
        lines[1],
        "BAT0: design capacity 3 mAh, last full capacity 2 mAh = 66%"
    );
}

#[test]
fn battery_without_detail_is_one_line() {
    let b = battery("BAT1", ChargingState::Discharging, 123, 800, 3661, 5000, 4500);
    let lines = format_battery_info(&b, false);
    assert_eq!(lines.len(), 1);
    assert_eq!(lines[0], "BAT1: Discharging, 12.3%, 01:01:01 remaining");
}

#[test]
fn adapter_status_labels() {
    let online = ACAdapterInfo { name: String::from("AC0"), status: Status::Online };
    let offline = ACAdapterInfo { name: String::from("AC0"), status: Status::Offline };
    assert_eq!(format_ac_adapter_info(&online), "AC0: online");
    assert_eq!(format_ac_adapter_info(&offline), "AC0: offline");
}

fn sensor(units: Units) -> ThermalSensor {
    ThermalSensor {
        name: String::from("TZ0"),
        current_temp_tenths: 421,
        units,
        trip_points: vec![
            TripPoint { number: 0, action_type: String::from("critical"), temp_tenths: 1000 },
            TripPoint { number: 1, action_type: String::from("passive"), temp_tenths: 855 },
        ],
    }
}

#[test]
fn thermal_plain_line() {
    let lines = format_thermal_zone_info(&sensor(Units::Celsius), false);
    assert_eq!(lines.len(), 1);
    assert_eq!(lines[0], "TZ0: 42.1 degrees C");
}

#[test]
fn thermal_detail_order_and_unit() {
    let lines = format_thermal_zone_info(&sensor(Units::Celsius), true);
    assert_eq!(lines.len(), 3);
    assert_eq!(lines[0], "TZ0: 42.1 degrees C");
    assert_eq!(
        lines[1],
        "TZ0: trip point 0 switches to mode critical at temperature 100.0 degrees C"
    );
    assert_eq!(
        lines[2],
        "TZ0: trip point 1 switches to mode passive at temperature 85.5 degrees C"
    );
}

#[test]
fn thermal_unit_labels() {
    let f = format_thermal_zone_info(&sensor(Units::Fahrenheit), false);
    assert_eq!(f[0], "TZ0: 42.1 degrees F");
    let k = format_thermal_zone_info(&sensor(Units::Kelvin), false);
    assert_eq!(k[0], "TZ0: 42.1 kelvin");
}

#[test]
fn thermal_negative_temperature() {
    let tz = ThermalSensor {
        name: String::from("TZ1"),
        current_temp_tenths: -53,
        units: Units::Celsius,
        trip_points: vec![],
    };
    let lines = format_thermal_zone_info(&tz, true);
    assert_eq!(lines.len(), 1);
    assert_eq!(lines[0], "TZ1: -5.3 degrees C");
}

#[test]
fn power_supply_lines() {
    let bat = PowerSupplyInfo {
        name: String::from("BAT0"),
        is_battery: true,
        battery: Some(battery("BAT0", ChargingState::Discharging, 555, 800, 3661, 5000, 4500)),
    };
    assert_eq!(
        format_power_supply_info(&bat),
        "BAT0: Discharging, 55.5%, 01:01:01 remaining"
    );
    let usb = PowerSupplyInfo {
        name: String::from("ucsi-source-psy-1"),
        is_battery: false,
        battery: None,
    };
    assert_eq!(format_power_supply_info(&usb), "ucsi-source-psy-1");
}

fn config(show_battery: bool, show_ac_adapter: bool, show_thermal_sensors: bool, detailed: bool) -> Config {
    Config {
        acpi_path: String::from("/sys/class"),
        show_battery,
        show_ac_adapter,
        show_thermal_sensors,
        detailed,
        units: Units::Celsius,
    }
}

#[test]
fn end_to_end_two_lines() {
    let cfg = config(true, true, false, false);
    let batteries = vec![battery("BAT0", ChargingState::Discharging, 555, 800, 3661, 5000, 4500)];
    let adapters = vec![ACAdapterInfo { name: String::from("AC0"), status: Status::Offline }];
    let sensors: Vec<ThermalSensor> = vec![];
    let lines = run(&cfg, &batteries, &adapters, &sensors);
    assert_eq!(lines.len(), 2);
    assert_eq!(lines[0], "BAT0: Discharging, 55.5%, 01:01:01 remaining");
    assert_eq!(lines[1], "AC0: offline");
}

#[test]
fn run_orders_categories_and_skips_disabled() {
    let cfg = config(true, true, true, true);
    let batteries = vec![battery("BAT0", ChargingState::Full, 1000, 0, 0, 5000, 4500)];
    let adapters = vec![ACAdapterInfo { name: String::from("AC0"), status: Status::Online }];
    let sensors = vec![sensor(Units::Celsius)];
    let lines = run(&cfg, &batteries, &adapters, &sensors);
    assert_eq!(
        lines,
        vec![
            String::from("BAT0: Full, 100.0%"),
            String::from("BAT0: design capacity 5000 mAh, last full capacity 4500 mAh = 90%"),
            String::from("AC0: online"),
            String::from("TZ0: 42.1 degrees C"),
            String::from("TZ0: trip point 0 switches to mode critical at temperature 100.0 degrees C"),
            String::from("TZ0: trip point 1 switches to mode passive at temperature 85.5 degrees C"),
        ]
    );
    let none = run(&config(false, false, false, true), &batteries, &adapters, &sensors);
    assert!(none.is_empty());
}

#[test]
fn run_with_empty_categories_prints_nothing() {
    let cfg = config(true, true, true, true);
    let lines = run(&cfg, &vec![], &vec![], &vec![]);
    assert!(lines.is_empty());
}
