//! The operator's settings and the safety envelope of the battery: what a
//! valid configuration is, and the usable capacity derived from it.

use crate::fixed::Milli;
use vstd::prelude::*;
use vstd::string::*;

verus! {

/// The settings of one deployment. Loaded once, never changed.
#[derive(Debug, Clone)]
pub struct Config {
    /// Address of the smart meter's document.
    pub p1_url: String,
    /// Base address of the inverter.
    pub indevolt_url: String,
    /// Length of one cycle, in seconds.
    pub poll_interval_seconds: u64,
    /// Rated capacity of the battery, in kilowatt-hours.
    pub battery_rated_capacity_kwh: Milli,
    /// State of charge always kept in reserve, in percent.
    pub battery_min_soc_percent: Milli,
    /// State of charge never exceeded, in percent.
    pub battery_max_soc_percent: Milli,
    /// Most power drawn from the grid to charge, in watts.
    pub battery_max_charge_power_w: i32,
    /// Most power fed from the battery, in watts.
    pub battery_max_discharge_power_w: i32,
    /// Grid import that should not be exceeded, in watts.
    pub battery_max_desired_grid_peak_w: i32,
    /// Least price spread that justifies a charge and discharge, in percent.
    pub battery_min_price_spread_percent: Milli,
    /// Round-trip efficiency of the battery, from 0 to 1.
    pub battery_round_trip_efficiency: Milli,
    /// Level of the log: "Trace", "Debug", "Info", "Warn" or "Error".
    pub log_level: String,
}

/// Why a configuration is refused.
#[derive(Debug, Clone, Copy, PartialEq, Eq, Structural)]
pub enum ConfigError {
    /// The poll interval is zero.
    ZeroPollInterval,
    /// The rated capacity is negative.
    NegativeCapacity,
    /// A state-of-charge bound lies outside 0 to 100 percent.
    SocOutOfRange,
    /// The least state of charge is above the greatest.
    SocBoundsInverted,
    /// The charge or the discharge power is negative.
    NegativePower,
    /// The round-trip efficiency lies outside 0 to 1.
    EfficiencyOutOfRange,
}

/// One hundred percent, in thousandths of a percent.
pub const FULL_PERCENT: i64 = 100_000;

/// An efficiency of one, in thousandths.
pub const FULL_EFFICIENCY: i64 = 1_000;

impl Config {
    /// The first rule that the configuration breaks, if it breaks one.
    pub open spec fn violation(&self) -> Option<ConfigError> {
        if self.poll_interval_seconds == 0 {
            Some(ConfigError::ZeroPollInterval)
        } else if self.battery_rated_capacity_kwh@ < 0 {
            Some(ConfigError::NegativeCapacity)
        } else if !(0 <= self.battery_min_soc_percent@ <= FULL_PERCENT) || !(0
            <= self.battery_max_soc_percent@ <= FULL_PERCENT) {
            Some(ConfigError::SocOutOfRange)
        } else if self.battery_min_soc_percent@ > self.battery_max_soc_percent@ {
            Some(ConfigError::SocBoundsInverted)
        } else if self.battery_max_charge_power_w < 0 || self.battery_max_discharge_power_w < 0 {
            Some(ConfigError::NegativePower)
        } else if !(0 <= self.battery_round_trip_efficiency@ <= FULL_EFFICIENCY) {
            Some(ConfigError::EfficiencyOutOfRange)
        } else {
            None
        }
    }

    /// The configuration keeps every rule of the safety envelope.
    pub open spec fn wf(&self) -> bool {
        self.violation() is None
    }

    /// The usable capacity in thousandths of a kilowatt-hour: the rated
    /// capacity times the span between the two state-of-charge bounds,
    /// over one hundred percent, rounded down.
    pub open spec fn usable_capacity(&self) -> int {
        self.battery_rated_capacity_kwh@ * (self.battery_max_soc_percent@
            - self.battery_min_soc_percent@) / (FULL_PERCENT as int)
    }

    /// Checks the configuration against the rules of the safety envelope
    /// and names the first one that it breaks.
    pub fn validate(&self) -> (checked: Result<(), ConfigError>)
        ensures
            match checked {
                Ok(_) => self.violation() is None,
                Err(e) => self.violation() == Some(e),
            },
    {
        if self.poll_interval_seconds == 0 {
            Err(ConfigError::ZeroPollInterval)
        } else if self.battery_rated_capacity_kwh.thousandths < 0 {
            Err(ConfigError::NegativeCapacity)
        } else if self.battery_min_soc_percent.thousandths < 0
            || self.battery_min_soc_percent.thousandths > FULL_PERCENT
            || self.battery_max_soc_percent.thousandths < 0
            || self.battery_max_soc_percent.thousandths > FULL_PERCENT {
            Err(ConfigError::SocOutOfRange)
        } else if self.battery_min_soc_percent.thousandths
            > self.battery_max_soc_percent.thousandths {
            Err(ConfigError::SocBoundsInverted)
        } else if self.battery_max_charge_power_w < 0 || self.battery_max_discharge_power_w < 0 {
            Err(ConfigError::NegativePower)
        } else if self.battery_round_trip_efficiency.thousandths < 0
            || self.battery_round_trip_efficiency.thousandths > FULL_EFFICIENCY {
            Err(ConfigError::EfficiencyOutOfRange)
        } else {
            Ok(())
        }
    }

    /// Usable capacity after reserving the least state of charge, in
    /// kilowatt-hours; `None` where it does not fit the fixed-point range,
    /// which no valid configuration reaches.
    pub fn usable_capacity_kwh(&self) -> (usable: Option<Milli>)
        ensures
            match usable {
                Some(m) => m@ == self.usable_capacity(),
                None => !(i64::MIN <= self.usable_capacity() <= i64::MAX),
            },
            self.wf() ==> usable is Some && 0 <= usable->0@ <= self.battery_rated_capacity_kwh@,
    {
        let rated: i128 = self.battery_rated_capacity_kwh.thousandths as i128;
        let span: i128 = self.battery_max_soc_percent.thousandths as i128
            - self.battery_min_soc_percent.thousandths as i128;
        proof {
            lemma_product_bound(rated as int, span as int);
        }
        let product: i128 = rated * span;
        let quotient = floor_div_100000(product);
        proof {
            if self.wf() {
                lemma_share_bound(rated as int, span as int);
            }
        }
        if quotient < -9_223_372_036_854_775_808i128 || quotient > 9_223_372_036_854_775_807i128 {
            None
        } else {
            Some(Milli { thousandths: quotient as i64 })
        }
    }
}

/// The product of a 64-bit capacity and the span of two 64-bit bounds fits
/// in 128 bits.
proof fn lemma_product_bound(rated: int, span: int)
    by (nonlinear_arith)
    requires
        -0x8000_0000_0000_0000 <= rated <= 0x7fff_ffff_ffff_ffff,
        -0xffff_ffff_ffff_ffff <= span <= 0xffff_ffff_ffff_ffff,
    ensures
        -0x7fff_ffff_ffff_ffff_8000_0000_0000_0000 <= rated * span
            <= 0x7fff_ffff_ffff_ffff_8000_0000_0000_0000,
{
}

/// A share of at most one hundred percent of a capacity lies between zero
/// and the capacity.
proof fn lemma_share_bound(rated: int, span: int)
    by (nonlinear_arith)
    requires
        0 <= rated,
        0 <= span <= 100_000,
    ensures
        0 <= rated * span / 100_000 <= rated,
{
}

/// `value` over one hundred thousand, rounded down.
fn floor_div_100000(value: i128) -> (quotient: i128)
    requires
        value > i128::MIN,
    ensures
        quotient == value / 100_000,
{
    if value >= 0 {
        value / 100_000
    } else {
        let magnitude: i128 = -value;
        let q: i128 = magnitude / 100_000;
        if magnitude % 100_000 == 0 {
            -q
        } else {
            -q - 1
        }
    }
}

/// With the state-of-charge bounds inverted a configuration is refused,
/// and the usable capacity of a battery of positive rated capacity would
/// be negative.
pub proof fn lemma_inverted_bounds_rejected(config: Config)
    requires
        config.battery_min_soc_percent@ > config.battery_max_soc_percent@,
    ensures
        config.violation() is Some,
        config.battery_rated_capacity_kwh@ > 0 ==> config.usable_capacity() < 0,
{
    let rated = config.battery_rated_capacity_kwh@;
    let span = config.battery_max_soc_percent@ - config.battery_min_soc_percent@;
    if rated > 0 {
        assert(rated * span < 0) by (nonlinear_arith)
            requires
                rated > 0,
                span < 0,
        ;
    }
}

/// A configuration that keeps the rules has a usable capacity between zero
/// and its rated capacity.
pub proof fn lemma_valid_capacity_bounds(config: Config)
    requires
        config.wf(),
    ensures
        0 <= config.usable_capacity() <= config.battery_rated_capacity_kwh@,
{
    lemma_share_bound(
        config.battery_rated_capacity_kwh@,
        config.battery_max_soc_percent@ - config.battery_min_soc_percent@,
    );
}

impl Default for Config {
    /// The settings of a node that talks to devices on its own host: a
    /// cycle of 30 s and a battery of 12 kWh kept between 10 and 100 %.
    fn default() -> (config: Config)
        ensures
            config.p1_url@ == "http://127.0.0.1/api/v1/data"@,
            config.indevolt_url@ == "http://127.0.0.1"@,
            config.poll_interval_seconds == 30,
            config.battery_rated_capacity_kwh@ == 12_000,
            config.battery_min_soc_percent@ == 10_000,
            config.battery_max_soc_percent@ == 100_000,
            config.battery_max_charge_power_w == 2400,
            config.battery_max_discharge_power_w == 2400,
            config.battery_max_desired_grid_peak_w == 3381,
            config.battery_min_price_spread_percent@ == 25_000,
            config.battery_round_trip_efficiency@ == 800,
            config.log_level@ == "Info"@,
            config.wf(),
    {
        Config {
            p1_url: String::from_str("http://127.0.0.1/api/v1/data"),
            indevolt_url: String::from_str("http://127.0.0.1"),
            poll_interval_seconds: 30,
            battery_rated_capacity_kwh: Milli { thousandths: 12_000 },
            battery_min_soc_percent: Milli { thousandths: 10_000 },
            battery_max_soc_percent: Milli { thousandths: 100_000 },
            battery_max_charge_power_w: 2400,
            battery_max_discharge_power_w: 2400,
            battery_max_desired_grid_peak_w: 3381,
            battery_min_price_spread_percent: Milli { thousandths: 25_000 },
            battery_round_trip_efficiency: Milli { thousandths: 800 },
            log_level: String::from_str("Info"),
        }
    }
}

/// Accepts a configuration that keeps every rule of the safety envelope and
/// refuses any other, naming the first rule broken.
pub fn load_config(candidate: Config) -> (loaded: Result<Config, ConfigError>)
    ensures
        match loaded {
            Ok(config) => config == candidate && candidate.wf(),
            Err(e) => candidate.violation() == Some(e),
        },
{
    match candidate.validate() {
        Ok(_) => Ok(candidate),
        Err(e) => Err(e),
    }
}

} // verus!
