//! The key/value read protocol: one request per sensor key, each of which
//! may fail on its own, and the snapshot decoded from what came back.

use crate::fixed::Milli;
use crate::http::{is_success_status, status_is_success};
use crate::indevolt::models::{
    BatteryConfig,
    BatteryConfigView,
    BatterySnapshot,
    SensorReading,
    SnapshotView,
};
use crate::text::{i32_of_text, milli_of_text, parse_i32, parse_milli, str_equal};
use vstd::prelude::*;
use vstd::string::*;

verus! {

/// Key of the state of charge, in percent.
pub const KEY_SOC: &'static str = "BatterySOC";

/// Key of what the battery is doing.
pub const KEY_BATTERY_STATE: &'static str = "BatteryState";

/// Key of the working mode.
pub const KEY_WORKING_MODE: &'static str = "WorkingMode";

/// Key of the battery's power, in watts.
pub const KEY_BATTERY_POWER: &'static str = "BatteryPower";

/// Key of the power of the first DC input, in watts.
pub const KEY_DC_INPUT1: &'static str = "DCInputPower1";

/// Key of the power of the second DC input, in watts.
pub const KEY_DC_INPUT2: &'static str = "DCInputPower2";

/// Key of the total DC output power, in watts.
pub const KEY_TOTAL_DC_OUTPUT: &'static str = "TotalDCOutputPower";

/// Key of the total AC output power, in watts.
pub const KEY_TOTAL_AC_OUTPUT: &'static str = "TotalACOutputPower";

/// Key of the total AC input power, in watts.
pub const KEY_TOTAL_AC_INPUT: &'static str = "TotalACInputPower";

/// Key of the grid power at the meter, in watts.
pub const KEY_METER_POWER: &'static str = "MeterPower";

/// Key of the day's production, in kilowatt-hours.
pub const KEY_DAILY_PRODUCTION: &'static str = "DailyProduction";

/// Key of the production since installation, in kilowatt-hours.
pub const KEY_CUMULATIVE_PRODUCTION: &'static str = "CumulativeProduction";

/// Key of the energy charged today, in kilowatt-hours.
pub const KEY_DAILY_CHARGING: &'static str = "DailyCharging";

/// Key of the energy discharged today, in kilowatt-hours.
pub const KEY_DAILY_DISCHARGING: &'static str = "DailyDischarging";

/// Key of the energy charged since installation, in kilowatt-hours.
pub const KEY_TOTAL_CHARGING: &'static str = "TotalCharging";

/// Key of the energy discharged since installation, in kilowatt-hours.
pub const KEY_TOTAL_DISCHARGING: &'static str = "TotalDischarging";

/// Key of the energy taken in over AC since installation, in kilowatt-hours.
pub const KEY_TOTAL_AC_INPUT_ENERGY: &'static str = "TotalACInputEnergy";

/// Key of the rated capacity, in kilowatt-hours.
pub const KEY_RATED_CAPACITY: &'static str = "RatedCapacity";

/// Key of the least state of charge, in percent.
pub const KEY_MIN_SOC: &'static str = "MinSOC";

/// Key of the greatest state of charge, in percent.
pub const KEY_MAX_SOC: &'static str = "MaxSOC";

/// Key of the greatest charge power, in watts.
pub const KEY_MAX_CHARGE_POWER: &'static str = "MaxChargePower";

/// Key of the greatest discharge power, in watts.
pub const KEY_MAX_DISCHARGE_POWER: &'static str = "MaxDischargePower";

/// The value that the readings hold for `key`: that of the last reading
/// with this key, a later one replacing an earlier one. Requests that failed
/// stand in the list as `None` and hold nothing.
pub open spec fn lookup(readings: Seq<Option<SensorReading>>, key: Seq<char>) -> Option<
    Seq<char>,
>
    decreases readings.len(),
{
    if readings.len() == 0 {
        None
    } else {
        match readings.last() {
            Some(reading) if reading.key@ == key => Some(reading.value@),
            _ => lookup(readings.drop_last(), key),
        }
    }
}

/// A fixed-point field: the quantity that the value writes, zero where the
/// value is missing or writes none.
pub open spec fn milli_or_zero(value: Option<Seq<char>>) -> Milli {
    match value {
        Some(text) => match milli_of_text(text) {
            Some(m) => m,
            None => Milli { thousandths: 0 },
        },
        None => Milli { thousandths: 0 },
    }
}

/// An integer field: the number that the value writes, zero where the value
/// is missing or writes none.
pub open spec fn i32_or_zero(value: Option<Seq<char>>) -> i32 {
    match value {
        Some(text) => match i32_of_text(text) {
            Some(v) => v,
            None => 0,
        },
        None => 0,
    }
}

/// A text field: the value as it is, empty where it is missing.
pub open spec fn text_or_empty(value: Option<Seq<char>>) -> Seq<char> {
    match value {
        Some(text) => text,
        None => Seq::empty(),
    }
}

/// The view of an optional string.
pub open spec fn text_view(value: Option<&String>) -> Option<Seq<char>> {
    match value {
        Some(s) => Some(s@),
        None => None,
    }
}

/// Finds the value that the readings hold for `key`.
pub fn find_value<'a>(readings: &'a Vec<Option<SensorReading>>, key: &str) -> (value: Option<
    &'a String,
>)
    ensures
        text_view(value) == lookup(readings@, key@),
{
    let mut found: Option<&'a String> = None;
    let mut i: usize = 0;
    proof {
        assert(readings@.take(0) =~= Seq::<Option<SensorReading>>::empty());
    }
    while i < readings.len()
        invariant
            0 <= i <= readings.len(),
            text_view(found) == lookup(readings@.take(i as int), key@),
        decreases readings.len() - i,
    {
        proof {
            assert(readings@.take(i + 1).drop_last() =~= readings@.take(i as int));
            assert(readings@.take(i + 1).last() == readings@[i as int]);
        }
        match &readings[i] {
            Some(reading) => {
                if str_equal(reading.key.as_str(), key) {
                    found = Some(&reading.value);
                }
            },
            None => {},
        }
        i = i + 1;
    }
    proof {
        assert(readings@.take(readings.len() as int) =~= readings@);
    }
    found
}

/// Decodes a fixed-point field, with zero for a missing or unreadable value.
pub fn decode_milli(value: Option<&String>) -> (m: Milli)
    ensures
        m == milli_or_zero(text_view(value)),
{
    match value {
        Some(text) => match parse_milli(text.as_str()) {
            Some(m) => m,
            None => Milli { thousandths: 0 },
        },
        None => Milli { thousandths: 0 },
    }
}

/// Decodes an integer field, with zero for a missing or unreadable value.
pub fn decode_i32(value: Option<&String>) -> (v: i32)
    ensures
        v == i32_or_zero(text_view(value)),
{
    match value {
        Some(text) => match parse_i32(text.as_str()) {
            Some(v) => v,
            None => 0,
        },
        None => 0,
    }
}

/// Decodes a text field, with the empty text for a missing value.
pub fn decode_text(value: Option<&String>) -> (s: String)
    ensures
        s@ == text_or_empty(text_view(value)),
{
    match value {
        Some(text) => text.clone(),
        None => String::new(),
    }
}

/// The snapshot that the readings of one cycle decode to: each field from
/// the value held for its own key, and from nothing else.
pub open spec fn snapshot_of_readings(
    device_model: Seq<char>,
    readings: Seq<Option<SensorReading>>,
) -> SnapshotView {
    SnapshotView {
        device_model,
        battery_soc: milli_or_zero(lookup(readings, KEY_SOC@)),
        battery_state: text_or_empty(lookup(readings, KEY_BATTERY_STATE@)),
        working_mode: text_or_empty(lookup(readings, KEY_WORKING_MODE@)),
        battery_power_w: i32_or_zero(lookup(readings, KEY_BATTERY_POWER@)),
        dc_input_power1_w: i32_or_zero(lookup(readings, KEY_DC_INPUT1@)),
        dc_input_power2_w: i32_or_zero(lookup(readings, KEY_DC_INPUT2@)),
        total_dc_output_power_w: i32_or_zero(lookup(readings, KEY_TOTAL_DC_OUTPUT@)),
        total_ac_output_power_w: i32_or_zero(lookup(readings, KEY_TOTAL_AC_OUTPUT@)),
        total_ac_input_power_w: i32_or_zero(lookup(readings, KEY_TOTAL_AC_INPUT@)),
        meter_power_w: i32_or_zero(lookup(readings, KEY_METER_POWER@)),
        daily_production_kwh: milli_or_zero(lookup(readings, KEY_DAILY_PRODUCTION@)),
        cumulative_production_kwh: milli_or_zero(lookup(readings, KEY_CUMULATIVE_PRODUCTION@)),
        daily_charging_kwh: milli_or_zero(lookup(readings, KEY_DAILY_CHARGING@)),
        daily_discharging_kwh: milli_or_zero(lookup(readings, KEY_DAILY_DISCHARGING@)),
        total_charging_kwh: milli_or_zero(lookup(readings, KEY_TOTAL_CHARGING@)),
        total_discharging_kwh: milli_or_zero(lookup(readings, KEY_TOTAL_DISCHARGING@)),
        total_ac_input_energy_kwh: milli_or_zero(lookup(readings, KEY_TOTAL_AC_INPUT_ENERGY@)),
    }
}

/// Assembles the battery snapshot from the readings of one cycle, one entry
/// per request and `None` for a request that failed. A field whose value is
/// missing or unreadable is zero, or the empty text.
pub fn read_battery_snapshot(device_model: &str, readings: &Vec<Option<SensorReading>>) -> (snapshot:
    BatterySnapshot)
    ensures
        snapshot@ == snapshot_of_readings(device_model@, readings@),
{
    BatterySnapshot {
        device_model: String::from_str(device_model),
        battery_soc: decode_milli(find_value(readings, KEY_SOC)),
        battery_state: decode_text(find_value(readings, KEY_BATTERY_STATE)),
        working_mode: decode_text(find_value(readings, KEY_WORKING_MODE)),
        battery_power_w: decode_i32(find_value(readings, KEY_BATTERY_POWER)),
        dc_input_power1_w: decode_i32(find_value(readings, KEY_DC_INPUT1)),
        dc_input_power2_w: decode_i32(find_value(readings, KEY_DC_INPUT2)),
        total_dc_output_power_w: decode_i32(find_value(readings, KEY_TOTAL_DC_OUTPUT)),
        total_ac_output_power_w: decode_i32(find_value(readings, KEY_TOTAL_AC_OUTPUT)),
        total_ac_input_power_w: decode_i32(find_value(readings, KEY_TOTAL_AC_INPUT)),
        meter_power_w: decode_i32(find_value(readings, KEY_METER_POWER)),
        daily_production_kwh: decode_milli(find_value(readings, KEY_DAILY_PRODUCTION)),
        cumulative_production_kwh: decode_milli(find_value(readings, KEY_CUMULATIVE_PRODUCTION)),
        daily_charging_kwh: decode_milli(find_value(readings, KEY_DAILY_CHARGING)),
        daily_discharging_kwh: decode_milli(find_value(readings, KEY_DAILY_DISCHARGING)),
        total_charging_kwh: decode_milli(find_value(readings, KEY_TOTAL_CHARGING)),
        total_discharging_kwh: decode_milli(find_value(readings, KEY_TOTAL_DISCHARGING)),
        total_ac_input_energy_kwh: decode_milli(find_value(readings, KEY_TOTAL_AC_INPUT_ENERGY)),
    }
}

/// The device's own limits as the readings decode them: each field from the
/// value held for its own key.
pub open spec fn config_of_readings(
    device_model: Seq<char>,
    readings: Seq<Option<SensorReading>>,
) -> BatteryConfigView {
    BatteryConfigView {
        device_model,
        rated_capacity_kwh: milli_or_zero(lookup(readings, KEY_RATED_CAPACITY@)),
        min_soc_percent: milli_or_zero(lookup(readings, KEY_MIN_SOC@)),
        max_soc_percent: milli_or_zero(lookup(readings, KEY_MAX_SOC@)),
        max_charge_power_w: i32_or_zero(lookup(readings, KEY_MAX_CHARGE_POWER@)),
        max_discharge_power_w: i32_or_zero(lookup(readings, KEY_MAX_DISCHARGE_POWER@)),
    }
}

/// Assembles the device's own limits from the readings of its configuration
/// keys, with zero for a value that is missing or unreadable.
pub fn read_battery_config(device_model: &str, readings: &Vec<Option<SensorReading>>) -> (config:
    BatteryConfig)
    ensures
        config@ == config_of_readings(device_model@, readings@),
{
    BatteryConfig {
        device_model: String::from_str(device_model),
        rated_capacity_kwh: decode_milli(find_value(readings, KEY_RATED_CAPACITY)),
        min_soc_percent: decode_milli(find_value(readings, KEY_MIN_SOC)),
        max_soc_percent: decode_milli(find_value(readings, KEY_MAX_SOC)),
        max_charge_power_w: decode_i32(find_value(readings, KEY_MAX_CHARGE_POWER)),
        max_discharge_power_w: decode_i32(find_value(readings, KEY_MAX_DISCHARGE_POWER)),
    }
}

/// The keys that make up a snapshot, in the order in which they are asked.
pub open spec fn snapshot_key_list() -> Seq<Seq<char>> {
    seq![
        KEY_SOC@,
        KEY_BATTERY_STATE@,
        KEY_WORKING_MODE@,
        KEY_BATTERY_POWER@,
        KEY_DC_INPUT1@,
        KEY_DC_INPUT2@,
        KEY_TOTAL_DC_OUTPUT@,
        KEY_TOTAL_AC_OUTPUT@,
        KEY_TOTAL_AC_INPUT@,
        KEY_METER_POWER@,
        KEY_DAILY_PRODUCTION@,
        KEY_CUMULATIVE_PRODUCTION@,
        KEY_DAILY_CHARGING@,
        KEY_DAILY_DISCHARGING@,
        KEY_TOTAL_CHARGING@,
        KEY_TOTAL_DISCHARGING@,
        KEY_TOTAL_AC_INPUT_ENERGY@,
    ]
}

/// The keys of the device's own limits, in the order in which they are asked.
pub open spec fn config_key_list() -> Seq<Seq<char>> {
    seq![
        KEY_RATED_CAPACITY@,
        KEY_MIN_SOC@,
        KEY_MAX_SOC@,
        KEY_MAX_CHARGE_POWER@,
        KEY_MAX_DISCHARGE_POWER@,
    ]
}

/// The views of a list of texts.
pub open spec fn key_views(keys: Seq<&'static str>) -> Seq<Seq<char>> {
    keys.map_values(|k: &'static str| k@)
}

/// The keys to ask for a snapshot.
pub fn snapshot_keys() -> (keys: Vec<&'static str>)
    ensures
        key_views(keys@) == snapshot_key_list(),
{
    let mut keys: Vec<&'static str> = Vec::new();
    keys.push(KEY_SOC);
    keys.push(KEY_BATTERY_STATE);
    keys.push(KEY_WORKING_MODE);
    keys.push(KEY_BATTERY_POWER);
    keys.push(KEY_DC_INPUT1);
    keys.push(KEY_DC_INPUT2);
    keys.push(KEY_TOTAL_DC_OUTPUT);
    keys.push(KEY_TOTAL_AC_OUTPUT);
    keys.push(KEY_TOTAL_AC_INPUT);
    keys.push(KEY_METER_POWER);
    keys.push(KEY_DAILY_PRODUCTION);
    keys.push(KEY_CUMULATIVE_PRODUCTION);
    keys.push(KEY_DAILY_CHARGING);
    keys.push(KEY_DAILY_DISCHARGING);
    keys.push(KEY_TOTAL_CHARGING);
    keys.push(KEY_TOTAL_DISCHARGING);
    keys.push(KEY_TOTAL_AC_INPUT_ENERGY);
    proof {
        assert(key_views(keys@) =~= snapshot_key_list());
    }
    keys
}

/// The keys to ask for the device's own limits.
pub fn config_keys() -> (keys: Vec<&'static str>)
    ensures
        key_views(keys@) == config_key_list(),
{
    let mut keys: Vec<&'static str> = Vec::new();
    keys.push(KEY_RATED_CAPACITY);
    keys.push(KEY_MIN_SOC);
    keys.push(KEY_MAX_SOC);
    keys.push(KEY_MAX_CHARGE_POWER);
    keys.push(KEY_MAX_DISCHARGE_POWER);
    proof {
        assert(key_views(keys@) =~= config_key_list());
    }
    keys
}

/// The address to ask for the sensor `key` of the device at `base_url`.
pub fn sensor_url(base_url: &str, key: &str) -> (url: String)
    ensures
        url@ == base_url@ + "/device/sensor?key="@ + key@,
{
    let mut url = String::from_str(base_url);
    url.append("/device/sensor?key=");
    url.append(key);
    url
}

/// How the request for one sensor key ended.
#[derive(Debug, Clone)]
pub enum SensorExchange {
    /// The request did not complete.
    TransportFailure,
    /// The device answered with `status`; `body` is the reading that the
    /// body decoded to, if it decoded to one.
    Answered { status: u16, body: Option<SensorReading> },
}

/// The reading that an exchange yields: the decoded body of an answer with
/// a success status, and nothing in every other case.
pub open spec fn accepted_reading(exchange: SensorExchange) -> Option<SensorReading> {
    match exchange {
        SensorExchange::Answered { status, body } => if status_is_success(status) {
            body
        } else {
            None
        },
        SensorExchange::TransportFailure => None,
    }
}

/// Decides what one sensor request contributes to the cycle. A failure of
/// any kind loses this one key and nothing else.
pub fn accept_reading(exchange: SensorExchange) -> (reading: Option<SensorReading>)
    ensures
        reading == accepted_reading(exchange),
{
    match exchange {
        SensorExchange::Answered { status, body } => {
            if is_success_status(status) {
                body
            } else {
                None
            }
        },
        SensorExchange::TransportFailure => None,
    }
}

/// `after` is `before` with every reading of `key` lost.
pub open spec fn loses_key(
    before: Seq<Option<SensorReading>>,
    after: Seq<Option<SensorReading>>,
    key: Seq<char>,
) -> bool {
    &&& after.len() == before.len()
    &&& forall|i: int|
        0 <= i < before.len() ==> #[trigger] after[i] == if before[i] matches Some(r) && r.key@
            == key {
            None
        } else {
            before[i]
        }
}

/// Losing the readings of one key leaves nothing held for that key, and
/// what is held for any other key as it was.
pub proof fn lemma_lost_key_isolated(
    before: Seq<Option<SensorReading>>,
    after: Seq<Option<SensorReading>>,
    key: Seq<char>,
    other: Seq<char>,
)
    requires
        loses_key(before, after, key),
    ensures
        lookup(after, key) is None,
        other != key ==> lookup(after, other) == lookup(before, other),
    decreases before.len(),
{
    if before.len() > 0 {
        assert(after.last() == after[after.len() - 1]);
        assert(loses_key(before.drop_last(), after.drop_last(), key)) by {
            assert forall|i: int| 0 <= i < before.drop_last().len() implies #[trigger] after.drop_last()[i]
                == if before.drop_last()[i] matches Some(r) && r.key@ == key {
                None
            } else {
                before.drop_last()[i]
            } by {
                assert(after.drop_last()[i] == after[i]);
            }
        }
        lemma_lost_key_isolated(before.drop_last(), after.drop_last(), key, other);
    }
}

/// Partial-failure isolation: when the readings of one key are lost, the
/// field of that key is zero or empty and every other field is what it would
/// have been.
pub proof fn lemma_lost_key_snapshot(
    device_model: Seq<char>,
    before: Seq<Option<SensorReading>>,
    after: Seq<Option<SensorReading>>,
    key: Seq<char>,
)
    requires
        loses_key(before, after, key),
    ensures
        ({
            let b = snapshot_of_readings(device_model, before);
            let a = snapshot_of_readings(device_model, after);
            &&& a.device_model == b.device_model
            &&& a.battery_soc == if key == KEY_SOC@ {
                Milli { thousandths: 0 }
            } else {
                b.battery_soc
            }
            &&& a.battery_state == if key == KEY_BATTERY_STATE@ {
                Seq::<char>::empty()
            } else {
                b.battery_state
            }
            &&& a.working_mode == if key == KEY_WORKING_MODE@ {
                Seq::<char>::empty()
            } else {
                b.working_mode
            }
            &&& a.battery_power_w == if key == KEY_BATTERY_POWER@ {
                0i32
            } else {
                b.battery_power_w
            }
            &&& a.dc_input_power1_w == if key == KEY_DC_INPUT1@ {
                0i32
            } else {
                b.dc_input_power1_w
            }
            &&& a.dc_input_power2_w == if key == KEY_DC_INPUT2@ {
                0i32
            } else {
                b.dc_input_power2_w
            }
            &&& a.total_dc_output_power_w == if key == KEY_TOTAL_DC_OUTPUT@ {
                0i32
            } else {
                b.total_dc_output_power_w
            }
            &&& a.total_ac_output_power_w == if key == KEY_TOTAL_AC_OUTPUT@ {
                0i32
            } else {
                b.total_ac_output_power_w
            }
            &&& a.total_ac_input_power_w == if key == KEY_TOTAL_AC_INPUT@ {
                0i32
            } else {
                b.total_ac_input_power_w
            }
            &&& a.meter_power_w == if key == KEY_METER_POWER@ {
                0i32
            } else {
                b.meter_power_w
            }
            &&& a.daily_production_kwh == if key == KEY_DAILY_PRODUCTION@ {
                Milli { thousandths: 0 }
            } else {
                b.daily_production_kwh
            }
            &&& a.cumulative_production_kwh == if key == KEY_CUMULATIVE_PRODUCTION@ {
                Milli { thousandths: 0 }
            } else {
                b.cumulative_production_kwh
            }
            &&& a.daily_charging_kwh == if key == KEY_DAILY_CHARGING@ {
                Milli { thousandths: 0 }
            } else {
                b.daily_charging_kwh
            }
            &&& a.daily_discharging_kwh == if key == KEY_DAILY_DISCHARGING@ {
                Milli { thousandths: 0 }
            } else {
                b.daily_discharging_kwh
            }
            &&& a.total_charging_kwh == if key == KEY_TOTAL_CHARGING@ {
                Milli { thousandths: 0 }
            } else {
                b.total_charging_kwh
            }
            &&& a.total_discharging_kwh == if key == KEY_TOTAL_DISCHARGING@ {
                Milli { thousandths: 0 }
            } else {
                b.total_discharging_kwh
            }
            &&& a.total_ac_input_energy_kwh == if key == KEY_TOTAL_AC_INPUT_ENERGY@ {
                Milli { thousandths: 0 }
            } else {
                b.total_ac_input_energy_kwh
            }
        }),
{
    lemma_lost_key_isolated(before, after, key, KEY_SOC@);
    lemma_lost_key_isolated(before, after, key, KEY_BATTERY_STATE@);
    lemma_lost_key_isolated(before, after, key, KEY_WORKING_MODE@);
    lemma_lost_key_isolated(before, after, key, KEY_BATTERY_POWER@);
    lemma_lost_key_isolated(before, after, key, KEY_DC_INPUT1@);
    lemma_lost_key_isolated(before, after, key, KEY_DC_INPUT2@);
    lemma_lost_key_isolated(before, after, key, KEY_TOTAL_DC_OUTPUT@);
    lemma_lost_key_isolated(before, after, key, KEY_TOTAL_AC_OUTPUT@);
    lemma_lost_key_isolated(before, after, key, KEY_TOTAL_AC_INPUT@);
    lemma_lost_key_isolated(before, after, key, KEY_METER_POWER@);
    lemma_lost_key_isolated(before, after, key, KEY_DAILY_PRODUCTION@);
    lemma_lost_key_isolated(before, after, key, KEY_CUMULATIVE_PRODUCTION@);
    lemma_lost_key_isolated(before, after, key, KEY_DAILY_CHARGING@);
    lemma_lost_key_isolated(before, after, key, KEY_DAILY_DISCHARGING@);
    lemma_lost_key_isolated(before, after, key, KEY_TOTAL_CHARGING@);
    lemma_lost_key_isolated(before, after, key, KEY_TOTAL_DISCHARGING@);
    lemma_lost_key_isolated(before, after, key, KEY_TOTAL_AC_INPUT_ENERGY@);
}

/// The entry is a reading for `key`.
pub open spec fn is_for(entry: Option<SensorReading>, key: Seq<char>) -> bool {
    entry matches Some(reading) && reading.key@ == key
}

/// The entry is a reading for `key` with the value `value`.
pub open spec fn reads(entry: Option<SensorReading>, key: Seq<char>, value: Seq<char>) -> bool {
    entry matches Some(reading) && reading.key@ == key && reading.value@ == value
}

/// No two readings of the list are for the same key.
pub open spec fn keys_distinct(readings: Seq<Option<SensorReading>>) -> bool {
    forall|i: int, j: int|
        0 <= i < j < readings.len() && readings[i] is Some && readings[j] is Some
            ==> readings[i]->0.key@ != readings[j]->0.key@
}

/// The two lists hold the same readings, in whatever order.
pub open spec fn same_readings(
    a: Seq<Option<SensorReading>>,
    b: Seq<Option<SensorReading>>,
) -> bool {
    forall|reading: SensorReading|
        a.contains(Some(reading)) <==> b.contains(Some(reading))
}

/// Among readings of distinct keys, what is held for a key is the value of
/// the reading for that key, wherever it stands.
pub proof fn lemma_lookup_finds_the_reading(
    readings: Seq<Option<SensorReading>>,
    key: Seq<char>,
    i: int,
)
    requires
        keys_distinct(readings),
        0 <= i < readings.len(),
        is_for(readings[i], key),
    ensures
        lookup(readings, key) == Some(readings[i]->0.value@),
    decreases readings.len(),
{
    let last = readings.len() - 1;
    if i < last {
        match readings.last() {
            Some(reading) => {
                assert(readings[last] is Some);
                assert(reading.key@ != key);
            },
            None => {},
        }
        assert(keys_distinct(readings.drop_last())) by {
            assert forall|a: int, b: int|
                0 <= a < b < readings.drop_last().len() && readings.drop_last()[a] is Some
                    && readings.drop_last()[b] is Some implies readings.drop_last()[a]->0.key@
                != readings.drop_last()[b]->0.key@ by {
                assert(readings.drop_last()[a] == readings[a]);
                assert(readings.drop_last()[b] == readings[b]);
            }
        }
        assert(readings.drop_last()[i] == readings[i]);
        lemma_lookup_finds_the_reading(readings.drop_last(), key, i);
    }
}

/// What is held for a key comes from a reading for that key; nothing is
/// held where there is none.
pub proof fn lemma_lookup_comes_from_a_reading(readings: Seq<Option<SensorReading>>, key: Seq<char>)
    ensures
        match lookup(readings, key) {
            Some(value) => exists|i: int|
                0 <= i < readings.len() && reads(#[trigger] readings[i], key, value),
            None => forall|i: int|
                0 <= i < readings.len() ==> !is_for(#[trigger] readings[i], key),
        },
    decreases readings.len(),
{
    if readings.len() > 0 {
        let last = readings.len() - 1;
        let rest = readings.drop_last();
        lemma_lookup_comes_from_a_reading(rest, key);
        if is_for(readings.last(), key) {
            assert(reads(readings[last], key, readings.last()->0.value@));
        } else {
            match lookup(rest, key) {
                Some(value) => {
                    let i = choose|i: int| 0 <= i < rest.len() && reads(#[trigger] rest[i], key, value);
                    assert(readings[i] == rest[i]);
                    assert(reads(readings[i], key, value));
                },
                None => {
                    assert forall|i: int| 0 <= i < readings.len() implies !is_for(
                        #[trigger] readings[i],
                        key,
                    ) by {
                        if i < last {
                            assert(readings[i] == rest[i]);
                        }
                    }
                },
            }
        }
    }
}

/// What one list holds for a key, the other holds too.
proof fn lemma_held_by_both(
    a: Seq<Option<SensorReading>>,
    b: Seq<Option<SensorReading>>,
    key: Seq<char>,
)
    requires
        keys_distinct(b),
        same_readings(a, b),
    ensures
        lookup(a, key) is Some ==> lookup(b, key) == lookup(a, key),
{
    lemma_lookup_comes_from_a_reading(a, key);
    if let Some(value) = lookup(a, key) {
        let i = choose|i: int| 0 <= i < a.len() && reads(#[trigger] a[i], key, value);
        let reading = a[i]->0;
        assert(a.contains(Some(reading)));
        assert(b.contains(Some(reading)));
        let j = choose|j: int| 0 <= j < b.len() && b[j] == Some(reading);
        lemma_lookup_finds_the_reading(b, key, j);
    }
}

/// Results are merged by key, not by arrival: two lists of the same
/// readings, each key read once, hold the same value for every key and
/// decode to the same snapshot.
pub proof fn lemma_arrival_order_irrelevant(
    device_model: Seq<char>,
    a: Seq<Option<SensorReading>>,
    b: Seq<Option<SensorReading>>,
)
    requires
        keys_distinct(a),
        keys_distinct(b),
        same_readings(a, b),
    ensures
        forall|key: Seq<char>| #[trigger] lookup(a, key) == lookup(b, key),
        snapshot_of_readings(device_model, a) == snapshot_of_readings(device_model, b),
        config_of_readings(device_model, a) == config_of_readings(device_model, b),
{
    assert forall|key: Seq<char>| #[trigger] lookup(a, key) == lookup(b, key) by {
        lemma_held_by_both(a, b, key);
        lemma_held_by_both(b, a, key);
    }
}

/// The place of `key` in the list of the snapshot's keys; -1 for any other
/// text.
pub open spec fn snapshot_key_index(key: Seq<char>) -> int {
    if key == KEY_SOC@ {
        0
    } else if key == KEY_BATTERY_STATE@ {
        1
    } else if key == KEY_WORKING_MODE@ {
        2
    } else if key == KEY_BATTERY_POWER@ {
        3
    } else if key == KEY_DC_INPUT1@ {
        4
    } else if key == KEY_DC_INPUT2@ {
        5
    } else if key == KEY_TOTAL_DC_OUTPUT@ {
        6
    } else if key == KEY_TOTAL_AC_OUTPUT@ {
        7
    } else if key == KEY_TOTAL_AC_INPUT@ {
        8
    } else if key == KEY_METER_POWER@ {
        9
    } else if key == KEY_DAILY_PRODUCTION@ {
        10
    } else if key == KEY_CUMULATIVE_PRODUCTION@ {
        11
    } else if key == KEY_DAILY_CHARGING@ {
        12
    } else if key == KEY_DAILY_DISCHARGING@ {
        13
    } else if key == KEY_TOTAL_CHARGING@ {
        14
    } else if key == KEY_TOTAL_DISCHARGING@ {
        15
    } else if key == KEY_TOTAL_AC_INPUT_ENERGY@ {
        16
    } else {
        -1
    }
}

/// No two of the snapshot's keys are the same text, so a lost key touches
/// one field only.
pub proof fn lemma_snapshot_keys_distinct()
    ensures
        snapshot_key_list().no_duplicates(),
        snapshot_key_index(KEY_SOC@) == 0,
        snapshot_key_index(KEY_BATTERY_STATE@) == 1,
        snapshot_key_index(KEY_WORKING_MODE@) == 2,
        snapshot_key_index(KEY_BATTERY_POWER@) == 3,
        snapshot_key_index(KEY_DC_INPUT1@) == 4,
        snapshot_key_index(KEY_DC_INPUT2@) == 5,
        snapshot_key_index(KEY_TOTAL_DC_OUTPUT@) == 6,
        snapshot_key_index(KEY_TOTAL_AC_OUTPUT@) == 7,
        snapshot_key_index(KEY_TOTAL_AC_INPUT@) == 8,
        snapshot_key_index(KEY_METER_POWER@) == 9,
        snapshot_key_index(KEY_DAILY_PRODUCTION@) == 10,
        snapshot_key_index(KEY_CUMULATIVE_PRODUCTION@) == 11,
        snapshot_key_index(KEY_DAILY_CHARGING@) == 12,
        snapshot_key_index(KEY_DAILY_DISCHARGING@) == 13,
        snapshot_key_index(KEY_TOTAL_CHARGING@) == 14,
        snapshot_key_index(KEY_TOTAL_DISCHARGING@) == 15,
        snapshot_key_index(KEY_TOTAL_AC_INPUT_ENERGY@) == 16,
{
    reveal_strlit("BatterySOC");
    reveal_strlit("BatteryState");
    reveal_strlit("WorkingMode");
    reveal_strlit("BatteryPower");
    reveal_strlit("DCInputPower1");
    reveal_strlit("DCInputPower2");
    reveal_strlit("TotalDCOutputPower");
    reveal_strlit("TotalACOutputPower");
    reveal_strlit("TotalACInputPower");
    reveal_strlit("MeterPower");
    reveal_strlit("DailyProduction");
    reveal_strlit("CumulativeProduction");
    reveal_strlit("DailyCharging");
    reveal_strlit("DailyDischarging");
    reveal_strlit("TotalCharging");
    reveal_strlit("TotalDischarging");
    reveal_strlit("TotalACInputEnergy");
    // The length of each key and a few of its characters tell it from the others.
    assert(KEY_SOC@.len() == 10 && KEY_SOC@[0] == 'B' && KEY_SOC@[1] == 'a' && KEY_SOC@[5] == 'r'
        && KEY_SOC@[7] == 'S' && KEY_SOC@[9] == 'C');
    assert(KEY_BATTERY_STATE@.len() == 12 && KEY_BATTERY_STATE@[0] == 'B' && KEY_BATTERY_STATE@[1] == 'a' && KEY_BATTERY_STATE@[5] == 'r'
        && KEY_BATTERY_STATE@[7] == 'S' && KEY_BATTERY_STATE@[11] == 'e');
    assert(KEY_WORKING_MODE@.len() == 11 && KEY_WORKING_MODE@[0] == 'W' && KEY_WORKING_MODE@[1] == 'o' && KEY_WORKING_MODE@[5] == 'n'
        && KEY_WORKING_MODE@[7] == 'M' && KEY_WORKING_MODE@[10] == 'e');
    assert(KEY_BATTERY_POWER@.len() == 12 && KEY_BATTERY_POWER@[0] == 'B' && KEY_BATTERY_POWER@[1] == 'a' && KEY_BATTERY_POWER@[5] == 'r'
        && KEY_BATTERY_POWER@[7] == 'P' && KEY_BATTERY_POWER@[11] == 'r');
    assert(KEY_DC_INPUT1@.len() == 13 && KEY_DC_INPUT1@[0] == 'D' && KEY_DC_INPUT1@[1] == 'C' && KEY_DC_INPUT1@[5] == 'u'
        && KEY_DC_INPUT1@[7] == 'P' && KEY_DC_INPUT1@[12] == '1');
    assert(KEY_DC_INPUT2@.len() == 13 && KEY_DC_INPUT2@[0] == 'D' && KEY_DC_INPUT2@[1] == 'C' && KEY_DC_INPUT2@[5] == 'u'
        && KEY_DC_INPUT2@[7] == 'P' && KEY_DC_INPUT2@[12] == '2');
    assert(KEY_TOTAL_DC_OUTPUT@.len() == 18 && KEY_TOTAL_DC_OUTPUT@[0] == 'T' && KEY_TOTAL_DC_OUTPUT@[1] == 'o' && KEY_TOTAL_DC_OUTPUT@[5] == 'D'
        && KEY_TOTAL_DC_OUTPUT@[7] == 'O' && KEY_TOTAL_DC_OUTPUT@[17] == 'r');
    assert(KEY_TOTAL_AC_OUTPUT@.len() == 18 && KEY_TOTAL_AC_OUTPUT@[0] == 'T' && KEY_TOTAL_AC_OUTPUT@[1] == 'o' && KEY_TOTAL_AC_OUTPUT@[5] == 'A'
        && KEY_TOTAL_AC_OUTPUT@[7] == 'O' && KEY_TOTAL_AC_OUTPUT@[17] == 'r');
    assert(KEY_TOTAL_AC_INPUT@.len() == 17 && KEY_TOTAL_AC_INPUT@[0] == 'T' && KEY_TOTAL_AC_INPUT@[1] == 'o' && KEY_TOTAL_AC_INPUT@[5] == 'A'
        && KEY_TOTAL_AC_INPUT@[7] == 'I' && KEY_TOTAL_AC_INPUT@[16] == 'r');
    assert(KEY_METER_POWER@.len() == 10 && KEY_METER_POWER@[0] == 'M' && KEY_METER_POWER@[1] == 'e' && KEY_METER_POWER@[5] == 'P'
        && KEY_METER_POWER@[7] == 'w' && KEY_METER_POWER@[9] == 'r');
    assert(KEY_DAILY_PRODUCTION@.len() == 15 && KEY_DAILY_PRODUCTION@[0] == 'D' && KEY_DAILY_PRODUCTION@[1] == 'a' && KEY_DAILY_PRODUCTION@[5] == 'P'
        && KEY_DAILY_PRODUCTION@[7] == 'o' && KEY_DAILY_PRODUCTION@[14] == 'n');
    assert(KEY_CUMULATIVE_PRODUCTION@.len() == 20 && KEY_CUMULATIVE_PRODUCTION@[0] == 'C' && KEY_CUMULATIVE_PRODUCTION@[1] == 'u' && KEY_CUMULATIVE_PRODUCTION@[5] == 'a'
        && KEY_CUMULATIVE_PRODUCTION@[7] == 'i' && KEY_CUMULATIVE_PRODUCTION@[19] == 'n');
    assert(KEY_DAILY_CHARGING@.len() == 13 && KEY_DAILY_CHARGING@[0] == 'D' && KEY_DAILY_CHARGING@[1] == 'a' && KEY_DAILY_CHARGING@[5] == 'C'
        && KEY_DAILY_CHARGING@[7] == 'a' && KEY_DAILY_CHARGING@[12] == 'g');
    assert(KEY_DAILY_DISCHARGING@.len() == 16 && KEY_DAILY_DISCHARGING@[0] == 'D' && KEY_DAILY_DISCHARGING@[1] == 'a' && KEY_DAILY_DISCHARGING@[5] == 'D'
        && KEY_DAILY_DISCHARGING@[7] == 's' && KEY_DAILY_DISCHARGING@[15] == 'g');
    assert(KEY_TOTAL_CHARGING@.len() == 13 && KEY_TOTAL_CHARGING@[0] == 'T' && KEY_TOTAL_CHARGING@[1] == 'o' && KEY_TOTAL_CHARGING@[5] == 'C'
        && KEY_TOTAL_CHARGING@[7] == 'a' && KEY_TOTAL_CHARGING@[12] == 'g');
    assert(KEY_TOTAL_DISCHARGING@.len() == 16 && KEY_TOTAL_DISCHARGING@[0] == 'T' && KEY_TOTAL_DISCHARGING@[1] == 'o' && KEY_TOTAL_DISCHARGING@[5] == 'D'
        && KEY_TOTAL_DISCHARGING@[7] == 's' && KEY_TOTAL_DISCHARGING@[15] == 'g');
    assert(KEY_TOTAL_AC_INPUT_ENERGY@.len() == 18 && KEY_TOTAL_AC_INPUT_ENERGY@[0] == 'T' && KEY_TOTAL_AC_INPUT_ENERGY@[1] == 'o' && KEY_TOTAL_AC_INPUT_ENERGY@[5] == 'A'
        && KEY_TOTAL_AC_INPUT_ENERGY@[7] == 'I' && KEY_TOTAL_AC_INPUT_ENERGY@[17] == 'y');
    assert(snapshot_key_index(KEY_SOC@) == 0);
    assert(snapshot_key_index(KEY_BATTERY_STATE@) == 1);
    assert(snapshot_key_index(KEY_WORKING_MODE@) == 2);
    assert(snapshot_key_index(KEY_BATTERY_POWER@) == 3);
    assert(snapshot_key_index(KEY_DC_INPUT1@) == 4);
    assert(snapshot_key_index(KEY_DC_INPUT2@) == 5);
    assert(snapshot_key_index(KEY_TOTAL_DC_OUTPUT@) == 6);
    assert(snapshot_key_index(KEY_TOTAL_AC_OUTPUT@) == 7);
    assert(snapshot_key_index(KEY_TOTAL_AC_INPUT@) == 8);
    assert(snapshot_key_index(KEY_METER_POWER@) == 9);
    assert(snapshot_key_index(KEY_DAILY_PRODUCTION@) == 10);
    assert(snapshot_key_index(KEY_CUMULATIVE_PRODUCTION@) == 11);
    assert(snapshot_key_index(KEY_DAILY_CHARGING@) == 12);
    assert(snapshot_key_index(KEY_DAILY_DISCHARGING@) == 13);
    assert(snapshot_key_index(KEY_TOTAL_CHARGING@) == 14);
    assert(snapshot_key_index(KEY_TOTAL_DISCHARGING@) == 15);
    assert(snapshot_key_index(KEY_TOTAL_AC_INPUT_ENERGY@) == 16);
    let keys = snapshot_key_list();
    assert forall|i: int| 0 <= i < 17 implies snapshot_key_index(#[trigger] keys[i]) == i by {
        if i == 0 {
            assert(keys[0] == KEY_SOC@);
        } else if i == 1 {
            assert(keys[1] == KEY_BATTERY_STATE@);
        } else if i == 2 {
            assert(keys[2] == KEY_WORKING_MODE@);
        } else if i == 3 {
            assert(keys[3] == KEY_BATTERY_POWER@);
        } else if i == 4 {
            assert(keys[4] == KEY_DC_INPUT1@);
        } else if i == 5 {
            assert(keys[5] == KEY_DC_INPUT2@);
        } else if i == 6 {
            assert(keys[6] == KEY_TOTAL_DC_OUTPUT@);
        } else if i == 7 {
            assert(keys[7] == KEY_TOTAL_AC_OUTPUT@);
        } else if i == 8 {
            assert(keys[8] == KEY_TOTAL_AC_INPUT@);
        } else if i == 9 {
            assert(keys[9] == KEY_METER_POWER@);
        } else if i == 10 {
            assert(keys[10] == KEY_DAILY_PRODUCTION@);
        } else if i == 11 {
            assert(keys[11] == KEY_CUMULATIVE_PRODUCTION@);
        } else if i == 12 {
            assert(keys[12] == KEY_DAILY_CHARGING@);
        } else if i == 13 {
            assert(keys[13] == KEY_DAILY_DISCHARGING@);
        } else if i == 14 {
            assert(keys[14] == KEY_TOTAL_CHARGING@);
        } else if i == 15 {
            assert(keys[15] == KEY_TOTAL_DISCHARGING@);
        } else if i == 16 {
            assert(keys[16] == KEY_TOTAL_AC_INPUT_ENERGY@);
        }
    }
    assert forall|i: int, j: int| 0 <= i < keys.len() && 0 <= j < keys.len() && i != j implies keys[i]
        != keys[j] by {
        assert(snapshot_key_index(keys[i]) == i);
        assert(snapshot_key_index(keys[j]) == j);
    }
}

/// When only the state of charge could not be read, the snapshot is the one
/// that a complete cycle would have given, but for a state of charge of
/// zero.
pub proof fn lemma_lost_soc_snapshot(
    device_model: Seq<char>,
    before: Seq<Option<SensorReading>>,
    after: Seq<Option<SensorReading>>,
)
    requires
        loses_key(before, after, KEY_SOC@),
    ensures
        snapshot_of_readings(device_model, after) == (SnapshotView {
            battery_soc: Milli { thousandths: 0 },
            ..snapshot_of_readings(device_model, before)
        }),
{
    lemma_lost_key_snapshot(device_model, before, after, KEY_SOC@);
    lemma_snapshot_keys_distinct();
}

} // verus!
