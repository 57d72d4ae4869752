//! Data model of the inverter's key/value protocol and the canonical
//! battery snapshot that both read protocols produce.

use crate::fixed::Milli;
use crate::text::{int_text, int_to_string, str_equal};
use vstd::prelude::*;
use vstd::string::*;

verus! {

/// One sensor reading as the device returns it for a key.
#[derive(Debug, Clone)]
pub struct SensorReading {
    pub key: String,
    pub value: String,
    pub unit: Option<String>,
}

/// All battery sensors polled in one cycle. Powers are in watts, energies in
/// kilowatt-hours, the state of charge in percent.
#[derive(Debug, Clone)]
pub struct BatterySnapshot {
    pub device_model: String,
    pub battery_soc: Milli,
    pub battery_state: String,
    pub working_mode: String,
    /// Negative while discharging, positive while charging.
    pub battery_power_w: i32,
    pub dc_input_power1_w: i32,
    pub dc_input_power2_w: i32,
    pub total_dc_output_power_w: i32,
    pub total_ac_output_power_w: i32,
    pub total_ac_input_power_w: i32,
    /// Positive on import from the grid, negative on export.
    pub meter_power_w: i32,
    pub daily_production_kwh: Milli,
    pub cumulative_production_kwh: Milli,
    pub daily_charging_kwh: Milli,
    pub daily_discharging_kwh: Milli,
    pub total_charging_kwh: Milli,
    pub total_discharging_kwh: Milli,
    pub total_ac_input_energy_kwh: Milli,
}

/// What a `BatterySnapshot` holds, with its texts as character sequences.
pub struct SnapshotView {
    pub device_model: Seq<char>,
    pub battery_soc: Milli,
    pub battery_state: Seq<char>,
    pub working_mode: Seq<char>,
    pub battery_power_w: i32,
    pub dc_input_power1_w: i32,
    pub dc_input_power2_w: i32,
    pub total_dc_output_power_w: i32,
    pub total_ac_output_power_w: i32,
    pub total_ac_input_power_w: i32,
    pub meter_power_w: i32,
    pub daily_production_kwh: Milli,
    pub cumulative_production_kwh: Milli,
    pub daily_charging_kwh: Milli,
    pub daily_discharging_kwh: Milli,
    pub total_charging_kwh: Milli,
    pub total_discharging_kwh: Milli,
    pub total_ac_input_energy_kwh: Milli,
}

impl View for BatterySnapshot {
    type V = SnapshotView;

    open spec fn view(&self) -> SnapshotView {
        SnapshotView {
            device_model: self.device_model@,
            battery_soc: self.battery_soc,
            battery_state: self.battery_state@,
            working_mode: self.working_mode@,
            battery_power_w: self.battery_power_w,
            dc_input_power1_w: self.dc_input_power1_w,
            dc_input_power2_w: self.dc_input_power2_w,
            total_dc_output_power_w: self.total_dc_output_power_w,
            total_ac_output_power_w: self.total_ac_output_power_w,
            total_ac_input_power_w: self.total_ac_input_power_w,
            meter_power_w: self.meter_power_w,
            daily_production_kwh: self.daily_production_kwh,
            cumulative_production_kwh: self.cumulative_production_kwh,
            daily_charging_kwh: self.daily_charging_kwh,
            daily_discharging_kwh: self.daily_discharging_kwh,
            total_charging_kwh: self.total_charging_kwh,
            total_discharging_kwh: self.total_discharging_kwh,
            total_ac_input_energy_kwh: self.total_ac_input_energy_kwh,
        }
    }
}

/// The snapshot of a device of which nothing is known: every number zero,
/// every text empty.
pub open spec fn empty_snapshot() -> SnapshotView {
    SnapshotView {
        device_model: Seq::empty(),
        battery_soc: Milli { thousandths: 0 },
        battery_state: Seq::empty(),
        working_mode: Seq::empty(),
        battery_power_w: 0,
        dc_input_power1_w: 0,
        dc_input_power2_w: 0,
        total_dc_output_power_w: 0,
        total_ac_output_power_w: 0,
        total_ac_input_power_w: 0,
        meter_power_w: 0,
        daily_production_kwh: Milli { thousandths: 0 },
        cumulative_production_kwh: Milli { thousandths: 0 },
        daily_charging_kwh: Milli { thousandths: 0 },
        daily_discharging_kwh: Milli { thousandths: 0 },
        total_charging_kwh: Milli { thousandths: 0 },
        total_discharging_kwh: Milli { thousandths: 0 },
        total_ac_input_energy_kwh: Milli { thousandths: 0 },
    }
}

impl Default for BatterySnapshot {
    fn default() -> (snapshot: BatterySnapshot)
        ensures
            snapshot@ == empty_snapshot(),
    {
        BatterySnapshot {
            device_model: String::new(),
            battery_soc: Milli { thousandths: 0 },
            battery_state: String::new(),
            working_mode: String::new(),
            battery_power_w: 0,
            dc_input_power1_w: 0,
            dc_input_power2_w: 0,
            total_dc_output_power_w: 0,
            total_ac_output_power_w: 0,
            total_ac_input_power_w: 0,
            meter_power_w: 0,
            daily_production_kwh: Milli { thousandths: 0 },
            cumulative_production_kwh: Milli { thousandths: 0 },
            daily_charging_kwh: Milli { thousandths: 0 },
            daily_discharging_kwh: Milli { thousandths: 0 },
            total_charging_kwh: Milli { thousandths: 0 },
            total_discharging_kwh: Milli { thousandths: 0 },
            total_ac_input_energy_kwh: Milli { thousandths: 0 },
        }
    }
}

/// The hardware limits that the device reports of itself.
#[derive(Debug, Clone)]
pub struct BatteryConfig {
    pub device_model: String,
    pub rated_capacity_kwh: Milli,
    pub min_soc_percent: Milli,
    pub max_soc_percent: Milli,
    pub max_charge_power_w: i32,
    pub max_discharge_power_w: i32,
}

/// What a `BatteryConfig` holds, with its text as a character sequence.
pub struct BatteryConfigView {
    pub device_model: Seq<char>,
    pub rated_capacity_kwh: Milli,
    pub min_soc_percent: Milli,
    pub max_soc_percent: Milli,
    pub max_charge_power_w: i32,
    pub max_discharge_power_w: i32,
}

impl View for BatteryConfig {
    type V = BatteryConfigView;

    open spec fn view(&self) -> BatteryConfigView {
        BatteryConfigView {
            device_model: self.device_model@,
            rated_capacity_kwh: self.rated_capacity_kwh,
            min_soc_percent: self.min_soc_percent,
            max_soc_percent: self.max_soc_percent,
            max_charge_power_w: self.max_charge_power_w,
            max_discharge_power_w: self.max_discharge_power_w,
        }
    }
}

impl Default for BatteryConfig {
    fn default() -> (config: BatteryConfig)
        ensures
            config@ == (BatteryConfigView {
                device_model: Seq::empty(),
                rated_capacity_kwh: Milli { thousandths: 0 },
                min_soc_percent: Milli { thousandths: 0 },
                max_soc_percent: Milli { thousandths: 0 },
                max_charge_power_w: 0,
                max_discharge_power_w: 0,
            }),
    {
        BatteryConfig {
            device_model: String::new(),
            rated_capacity_kwh: Milli { thousandths: 0 },
            min_soc_percent: Milli { thousandths: 0 },
            max_soc_percent: Milli { thousandths: 0 },
            max_charge_power_w: 0,
            max_discharge_power_w: 0,
        }
    }
}

/// The working modes that the key/value protocol names.
#[derive(Debug, Clone, Copy, PartialEq, Eq, Structural)]
pub enum WorkingMode {
    /// Use solar first, the battery as a buffer.
    SelfConsumedPrioritized,
    /// Force charging from the grid.
    ChargingFromGrid,
    /// Force discharging to loads or the grid.
    DischargingToGrid,
    /// Fully managed from outside; no automatic switching.
    Manual,
}

/// The text by which the key/value protocol names `mode`.
pub open spec fn api_text(mode: WorkingMode) -> Seq<char> {
    match mode {
        WorkingMode::SelfConsumedPrioritized => "Self-consumed Prioritized"@,
        WorkingMode::ChargingFromGrid => "Charging From Grid"@,
        WorkingMode::DischargingToGrid => "Discharging To Grid"@,
        WorkingMode::Manual => "Manual"@,
    }
}

/// The mode that the protocol text `s` names, if it names one.
pub open spec fn mode_of_api_text(s: Seq<char>) -> Option<WorkingMode> {
    if s == "Self-consumed Prioritized"@ {
        Some(WorkingMode::SelfConsumedPrioritized)
    } else if s == "Charging From Grid"@ {
        Some(WorkingMode::ChargingFromGrid)
    } else if s == "Discharging To Grid"@ {
        Some(WorkingMode::DischargingToGrid)
    } else if s == "Manual"@ {
        Some(WorkingMode::Manual)
    } else {
        None
    }
}

impl WorkingMode {
    /// The text that the device expects for this mode.
    pub fn as_api_str(&self) -> (s: &'static str)
        ensures
            s@ == api_text(*self),
    {
        match self {
            WorkingMode::SelfConsumedPrioritized => "Self-consumed Prioritized",
            WorkingMode::ChargingFromGrid => "Charging From Grid",
            WorkingMode::DischargingToGrid => "Discharging To Grid",
            WorkingMode::Manual => "Manual",
        }
    }

    /// Reads a mode from the text that the device returns for it; `None`
    /// for a text that names no mode.
    pub fn from_api_str(s: &str) -> (mode: Option<WorkingMode>)
        ensures
            mode == mode_of_api_text(s@),
    {
        if str_equal(s, "Self-consumed Prioritized") {
            Some(WorkingMode::SelfConsumedPrioritized)
        } else if str_equal(s, "Charging From Grid") {
            Some(WorkingMode::ChargingFromGrid)
        } else if str_equal(s, "Discharging To Grid") {
            Some(WorkingMode::DischargingToGrid)
        } else if str_equal(s, "Manual") {
            Some(WorkingMode::Manual)
        } else {
            None
        }
    }
}

/// Reading a mode back from its own protocol text gives the mode again, and
/// a text that names a mode is that mode's text.
pub proof fn lemma_api_text_round_trip(mode: WorkingMode, s: Seq<char>)
    ensures
        mode_of_api_text(api_text(mode)) == Some(mode),
        mode_of_api_text(s) == Some(mode) ==> s == api_text(mode),
{
    reveal_strlit("Self-consumed Prioritized");
    reveal_strlit("Charging From Grid");
    reveal_strlit("Discharging To Grid");
    reveal_strlit("Manual");
    assert("Self-consumed Prioritized"@.len() == 25);
    assert("Charging From Grid"@.len() == 18);
    assert("Discharging To Grid"@.len() == 19);
    assert("Manual"@.len() == 6);
}

/// One command of the key/value protocol: a key and the value to set.
#[derive(Debug, Clone)]
pub struct ControlCommand {
    pub key: String,
    pub value: String,
}

impl ControlCommand {
    /// The command that selects `mode`.
    pub fn set_working_mode(mode: &WorkingMode) -> (command: ControlCommand)
        ensures
            command.key@ == "WorkingMode"@,
            command.value@ == api_text(*mode),
    {
        ControlCommand {
            key: String::from_str("WorkingMode"),
            value: String::from_str(mode.as_api_str()),
        }
    }

    /// The command that limits the charge power to `watts`.
    pub fn set_charge_power(watts: i32) -> (command: ControlCommand)
        ensures
            command.key@ == "MaxChargePower"@,
            command.value@ == int_text(watts as int),
    {
        ControlCommand {
            key: String::from_str("MaxChargePower"),
            value: int_to_string(watts as i64),
        }
    }

    /// The command that limits the discharge power to `watts`.
    pub fn set_discharge_power(watts: i32) -> (command: ControlCommand)
        ensures
            command.key@ == "MaxDischargePower"@,
            command.value@ == int_text(watts as int),
    {
        ControlCommand {
            key: String::from_str("MaxDischargePower"),
            value: int_to_string(watts as i64),
        }
    }
}

} // verus!
