//! The document that the smart meter returns.

use crate::fixed::Milli;
use vstd::prelude::*;

verus! {

/// A sub-meter attached to the smart meter's port.
#[derive(Debug, Clone)]
pub struct ExternalMeasurement {
    pub unique_id: String,
    /// What the sub-meter measures.
    pub kind: String,
    /// Compact local time, as text whether the meter sent text or a number.
    pub timestamp: String,
    pub value: Milli,
    pub unit: String,
}

/// One document of the smart meter. Powers are in watts, energies in
/// kilowatt-hours, voltages in volts, currents in amperes, gas in cubic
/// metres.
#[derive(Debug, Clone)]
pub struct P1Data {
    pub wifi_ssid: String,
    pub wifi_strength: u8,
    pub smr_version: u8,
    pub meter_model: String,
    pub unique_id: String,
    pub active_tariff: u8,
    pub total_power_import_kwh: Milli,
    pub total_power_import_t1_kwh: Milli,
    pub total_power_import_t2_kwh: Milli,
    pub total_power_export_kwh: Milli,
    pub total_power_export_t1_kwh: Milli,
    pub total_power_export_t2_kwh: Milli,
    pub active_power_w: Milli,
    pub active_power_l1_w: Milli,
    pub active_power_l2_w: Milli,
    pub active_power_l3_w: Milli,
    pub active_voltage_l1_v: Milli,
    pub active_voltage_l2_v: Milli,
    pub active_voltage_l3_v: Milli,
    pub active_current_a: Milli,
    pub active_current_l1_a: Milli,
    pub active_current_l2_a: Milli,
    pub active_current_l3_a: Milli,
    pub active_power_average_w: Milli,
    /// The month's peak power. The name is the meter's own spelling.
    pub montly_power_peak_w: Milli,
    /// When the peak occurred: compact local time, `YYMMDDHHmmss`.
    pub montly_power_peak_timestamp: String,
    pub total_gas_m3: Milli,
    /// When gas was last read: compact local time, `YYMMDDHHmmss`.
    pub gas_timestamp: String,
    pub gas_unique_id: String,
    pub external: Vec<ExternalMeasurement>,
}

} // verus!
