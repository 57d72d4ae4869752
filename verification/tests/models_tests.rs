use ems::indevolt::models::{BatteryConfig, BatterySnapshot, ControlCommand, WorkingMode};
use ems::fixed::Milli;

#[test]
fn working_modes_have_their_protocol_texts() {
    assert_eq!(WorkingMode::SelfConsumedPrioritized.as_api_str(), "Self-consumed Prioritized");
    assert_eq!(WorkingMode::ChargingFromGrid.as_api_str(), "Charging From Grid");
    assert_eq!(WorkingMode::DischargingToGrid.as_api_str(), "Discharging To Grid");
    assert_eq!(WorkingMode::Manual.as_api_str(), "Manual");
}

#[test]
fn protocol_texts_read_back_as_their_modes() {
    let modes = vec![
        WorkingMode::SelfConsumedPrioritized,
        WorkingMode::ChargingFromGrid,
        WorkingMode::DischargingToGrid,
        WorkingMode::Manual,
    ];
    for mode in modes {
        assert_eq!(WorkingMode::from_api_str(mode.as_api_str()), Some(mode));
    }
}

#[test]
fn unknown_protocol_texts_name_no_mode() {
    assert_eq!(WorkingMode::from_api_str(""), None);
    assert_eq!(WorkingMode::from_api_str("manual"), None);
    assert_eq!(WorkingMode::from_api_str("Manual "), None);
    assert_eq!(WorkingMode::from_api_str("Self-consumed"), None);
    assert_eq!(WorkingMode::from_api_str("RealtimeControl"), None);
}

#[test]
fn control_command_selects_a_mode() {
    let command = ControlCommand::set_working_mode(&WorkingMode::ChargingFromGrid);
    assert_eq!(command.key, "WorkingMode");
    assert_eq!(command.value, "Charging From Grid");
}

#[test]
fn control_command_sets_the_charge_power() {
    let command = ControlCommand::set_charge_power(2400);
    assert_eq!(command.key, "MaxChargePower");
    assert_eq!(command.value, "2400");
    let negative = ControlCommand::set_charge_power(-5);
    assert_eq!(negative.value, "-5");
}

#[test]
fn control_command_sets_the_discharge_power() {
    let command = ControlCommand::set_discharge_power(1800);
    assert_eq!(command.key, "MaxDischargePower");
    assert_eq!(command.value, "1800");
    assert_eq!(ControlCommand::set_discharge_power(i32::MIN).value, "-2147483648");
}

#[test]
fn default_snapshot_is_all_zero() {
    let snapshot = BatterySnapshot::default();
    assert_eq!(snapshot.device_model, "");
    assert_eq!(snapshot.battery_soc, Milli { thousandths: 0 });
    assert_eq!(snapshot.battery_state, "");
    assert_eq!(snapshot.working_mode, "");
    assert_eq!(snapshot.battery_power_w, 0);
    assert_eq!(snapshot.meter_power_w, 0);
    assert_eq!(snapshot.total_ac_input_energy_kwh, Milli { thousandths: 0 });
}

#[test]
fn default_battery_config_is_all_zero() {
    let config = BatteryConfig::default();
    assert_eq!(config.device_model, "");
    assert_eq!(config.rated_capacity_kwh, Milli { thousandths: 0 });
    assert_eq!(config.max_charge_power_w, 0);
    assert_eq!(config.max_discharge_power_w, 0);
}
