use ems::config::{load_config, Config, ConfigError};
use ems::fixed::Milli;

#[test]
fn default_settings_are_the_documented_ones() {
    let config = Config::default();
    assert_eq!(config.p1_url, "http://127.0.0.1/api/v1/data");
    assert_eq!(config.indevolt_url, "http://127.0.0.1");
    assert_eq!(config.poll_interval_seconds, 30);
    assert_eq!(config.battery_rated_capacity_kwh, Milli { thousandths: 12_000 });
    assert_eq!(config.battery_min_soc_percent, Milli { thousandths: 10_000 });
    assert_eq!(config.battery_max_soc_percent, Milli { thousandths: 100_000 });
    assert_eq!(config.battery_max_charge_power_w, 2400);
    assert_eq!(config.battery_max_discharge_power_w, 2400);
    assert_eq!(config.battery_max_desired_grid_peak_w, 3381);
    assert_eq!(config.battery_min_price_spread_percent, Milli { thousandths: 25_000 });
    assert_eq!(config.battery_round_trip_efficiency, Milli { thousandths: 800 });
    assert_eq!(config.log_level, "Info");
    assert_eq!(config.validate(), Ok(()));
}

#[test]
fn default_usable_capacity_is_ten_point_eight() {
    let mut config = Config::default();
    config.battery_rated_capacity_kwh = Milli { thousandths: 12_000 };
    config.battery_min_soc_percent = Milli { thousandths: 10_000 };
    config.battery_max_soc_percent = Milli { thousandths: 100_000 };
    assert_eq!(config.usable_capacity_kwh(), Some(Milli { thousandths: 10_800 }));
}

#[test]
fn usable_capacity_follows_the_formula() {
    let mut config = Config::default();
    config.battery_rated_capacity_kwh = Milli { thousandths: 5_120 };
    config.battery_min_soc_percent = Milli { thousandths: 20_000 };
    config.battery_max_soc_percent = Milli { thousandths: 95_500 };
    assert_eq!(config.usable_capacity_kwh(), Some(Milli { thousandths: 3_865 }));
    config.battery_min_soc_percent = Milli { thousandths: 50_000 };
    config.battery_max_soc_percent = Milli { thousandths: 50_000 };
    assert_eq!(config.usable_capacity_kwh(), Some(Milli { thousandths: 0 }));
    config.battery_min_soc_percent = Milli { thousandths: 0 };
    config.battery_max_soc_percent = Milli { thousandths: 100_000 };
    assert_eq!(config.usable_capacity_kwh(), Some(Milli { thousandths: 5_120 }));
}

#[test]
fn inverted_soc_bounds_give_a_negative_capacity() {
    let mut config = Config::default();
    config.battery_min_soc_percent = Milli { thousandths: 90_000 };
    config.battery_max_soc_percent = Milli { thousandths: 20_000 };
    assert_eq!(config.usable_capacity_kwh(), Some(Milli { thousandths: -8_400 }));
    config.battery_rated_capacity_kwh = Milli { thousandths: 1 };
    config.battery_min_soc_percent = Milli { thousandths: 1 };
    config.battery_max_soc_percent = Milli { thousandths: 0 };
    assert_eq!(config.usable_capacity_kwh(), Some(Milli { thousandths: -1 }));
}

#[test]
fn inverted_soc_bounds_are_rejected() {
    let mut config = Config::default();
    config.battery_min_soc_percent = Milli { thousandths: 90_000 };
    config.battery_max_soc_percent = Milli { thousandths: 20_000 };
    assert_eq!(config.validate(), Err(ConfigError::SocBoundsInverted));
    assert_eq!(load_config(config).err(), Some(ConfigError::SocBoundsInverted));
}

#[test]
fn a_capacity_out_of_range_is_none() {
    let mut config = Config::default();
    config.battery_rated_capacity_kwh = Milli { thousandths: i64::MAX };
    config.battery_min_soc_percent = Milli { thousandths: i64::MIN };
    config.battery_max_soc_percent = Milli { thousandths: i64::MAX };
    assert_eq!(config.usable_capacity_kwh(), None);
    config.battery_rated_capacity_kwh = Milli { thousandths: i64::MIN };
    assert_eq!(config.usable_capacity_kwh(), None);
}

#[test]
fn a_zero_poll_interval_is_rejected() {
    let mut config = Config::default();
    config.poll_interval_seconds = 0;
    assert_eq!(config.validate(), Err(ConfigError::ZeroPollInterval));
}

#[test]
fn a_negative_capacity_is_rejected() {
    let mut config = Config::default();
    config.battery_rated_capacity_kwh = Milli { thousandths: -1 };
    assert_eq!(config.validate(), Err(ConfigError::NegativeCapacity));
}

#[test]
fn soc_bounds_out_of_range_are_rejected() {
    let mut config = Config::default();
    config.battery_max_soc_percent = Milli { thousandths: 100_001 };
    assert_eq!(config.validate(), Err(ConfigError::SocOutOfRange));
    config.battery_max_soc_percent = Milli { thousandths: 100_000 };
    config.battery_min_soc_percent = Milli { thousandths: -1 };
    assert_eq!(config.validate(), Err(ConfigError::SocOutOfRange));
}

#[test]
fn negative_powers_are_rejected() {
    let mut config = Config::default();
    config.battery_max_charge_power_w = -1;
    assert_eq!(config.validate(), Err(ConfigError::NegativePower));
    config.battery_max_charge_power_w = 0;
    config.battery_max_discharge_power_w = -2400;
    assert_eq!(config.validate(), Err(ConfigError::NegativePower));
}

#[test]
fn an_efficiency_out_of_range_is_rejected() {
    let mut config = Config::default();
    config.battery_round_trip_efficiency = Milli { thousandths: 1_001 };
    assert_eq!(config.validate(), Err(ConfigError::EfficiencyOutOfRange));
    config.battery_round_trip_efficiency = Milli { thousandths: -1 };
    assert_eq!(config.validate(), Err(ConfigError::EfficiencyOutOfRange));
}

#[test]
fn the_first_broken_rule_is_named() {
    let mut config = Config::default();
    config.poll_interval_seconds = 0;
    config.battery_rated_capacity_kwh = Milli { thousandths: -1 };
    config.battery_min_soc_percent = Milli { thousandths: 200_000 };
    config.battery_max_charge_power_w = -1;
    assert_eq!(config.validate(), Err(ConfigError::ZeroPollInterval));
    config.poll_interval_seconds = 1;
    assert_eq!(config.validate(), Err(ConfigError::NegativeCapacity));
    config.battery_rated_capacity_kwh = Milli { thousandths: 0 };
    assert_eq!(config.validate(), Err(ConfigError::SocOutOfRange));
}

#[test]
fn a_valid_configuration_is_loaded_as_it_is() {
    let mut config = Config::default();
    config.p1_url = "http://192.168.1.10/api/v1/data".to_string();
    config.battery_min_soc_percent = Milli { thousandths: 0 };
    config.battery_round_trip_efficiency = Milli { thousandths: 1_000 };
    let loaded = load_config(config).unwrap();
    assert_eq!(loaded.p1_url, "http://192.168.1.10/api/v1/data");
    assert_eq!(loaded.battery_min_soc_percent, Milli { thousandths: 0 });
    assert_eq!(loaded.usable_capacity_kwh(), Some(Milli { thousandths: 12_000 }));
    assert_eq!(loaded.poll_interval_seconds, 30);
}
