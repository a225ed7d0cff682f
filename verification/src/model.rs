//! The normalized device records that the reporting engine consumes.
//!
//! Records arrive from an acquisition layer outside this crate.  Fractional
//! readings (a battery percentage, a temperature) are carried in tenths of a
//! unit so that the engine works on plain integers; durations are carried in
//! whole seconds.

use vstd::prelude::*;

verus! {

/// The charging state of a battery.
#[derive(Clone, Copy, PartialEq, Eq, Structural)]
pub enum ChargingState {
    Charging,
    Discharging,
    Full,
}

/// Whether an AC adapter is connected and charging.
#[derive(Clone, Copy, PartialEq, Eq, Structural)]
pub enum Status {
    Online,
    Offline,
}

/// The unit in which temperature readings were requested and delivered.
#[derive(Clone, Copy, PartialEq, Eq, Structural)]
pub enum Units {
    Fahrenheit,
    Celsius,
    Kelvin,
}

/// Metadata pertaining to one battery.
pub struct BatteryInfo {
    /// The name used by the power subsystem to refer to the device.
    pub name: String,
    /// The state of the battery's charging.
    pub state: ChargingState,
    /// The charge remaining relative to the last full charge, in tenths of a
    /// percent (555 stands for 55.5 %).
    pub percent_tenths: u32,
    /// The rate at which the charge is changing; 0 means no measurable flow.
    pub present_rate: u32,
    /// The time remaining until full charge or empty, in whole seconds.
    pub time_remaining_secs: u64,
    /// The charge available at the time of manufacture, e.g. in mAh.
    pub design_capacity: u32,
    /// The charge available the last time the device was charged to full,
    /// in the same unit as `design_capacity`.
    pub last_capacity: u32,
}

/// Information about one AC adapter.
pub struct ACAdapterInfo {
    /// The name used by the power subsystem to refer to the adapter.
    pub name: String,
    /// Whether the adapter is plugged in and charging or not.
    pub status: Status,
}

/// A temperature threshold at which a thermal zone takes action.
pub struct TripPoint {
    /// A numerical identifier for the trip point.
    pub number: u8,
    /// The kind of action taken when the trip point is reached, a free-form
    /// label such as "critical" or "passive".
    pub action_type: String,
    /// The threshold temperature, in tenths of a degree of the unit carried
    /// by the owning sensor.
    pub temp_tenths: i32,
}

/// Information about a zone monitored by a temperature sensor.
pub struct ThermalSensor {
    /// The name used by the thermal subsystem to refer to the sensor.
    pub name: String,
    /// The current reading, in tenths of a degree of `units`.
    pub current_temp_tenths: i32,
    /// The unit the readings were already converted into upstream.  The
    /// engine only labels values with it and never re-converts them.
    pub units: Units,
    /// The trip points configured for the zone, in acquisition order.
    pub trip_points: Vec<TripPoint>,
}

/// A unified power-supply record, for backends that cannot tell batteries
/// from other supplies up front; `is_battery` is the sole discriminator.
pub struct PowerSupplyInfo {
    /// The name used by the power subsystem to refer to the device.
    pub name: String,
    /// Whether the device is a battery.
    pub is_battery: bool,
    /// The battery fields, present exactly when `is_battery` is set.
    pub battery: Option<BatteryInfo>,
}

impl PowerSupplyInfo {
    /// A record is well formed when the battery fields are present exactly
    /// for battery devices.
    pub open spec fn wf(self) -> bool {
        self.is_battery <==> self.battery is Some
    }
}

/// What to show in one run, resolved once from the command line and the
/// environment before the engine is called, then read-only.
pub struct Config {
    /// The root under which the acquisition layer reads device state.
    pub acpi_path: String,
    /// Whether battery records are reported.
    pub show_battery: bool,
    /// Whether AC adapter records are reported.
    pub show_ac_adapter: bool,
    /// Whether thermal sensor records are reported.
    pub show_thermal_sensors: bool,
    /// Whether the extra per-device detail lines are reported.
    pub detailed: bool,
    /// The temperature unit the acquisition layer was asked for.
    pub units: Units,
}

} // verus!
