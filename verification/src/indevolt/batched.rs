//! The batched read protocol: one request for all sensors by numeric
//! identifier, and the snapshot decoded from the values that came back.

use crate::fixed::{clamp_i32, nearest_units, whole_units, Milli};
use crate::http::{is_success_status, status_is_success};
use crate::indevolt::controller::{mode_label, mode_of_code, RegisterMode};
use crate::indevolt::models::{empty_snapshot, BatterySnapshot, SnapshotView};
use crate::text::{append_int, int_text};
use vstd::prelude::*;
use vstd::string::*;

verus! {

/// Identifier of the state of charge, in percent.
pub const ID_BATTERY_SOC: u32 = 6002;

/// Identifier of what the battery is doing.
pub const ID_BATTERY_STATE: u32 = 6001;

/// Identifier of the working mode.
pub const ID_WORKING_MODE: u32 = 7101;

/// Identifier of the battery's power, in watts.
pub const ID_BATTERY_POWER: u32 = 6000;

/// Identifier of the power of the first DC input, in watts.
pub const ID_DC_INPUT_POWER1: u32 = 1664;

/// Identifier of the power of the second DC input, in watts.
pub const ID_DC_INPUT_POWER2: u32 = 1665;

/// Identifier of the total DC output power, in watts.
pub const ID_TOTAL_DC_OUTPUT_POWER: u32 = 1501;

/// Identifier of the total AC output power, in watts.
pub const ID_TOTAL_AC_OUTPUT_POWER: u32 = 2108;

/// Identifier of the total AC input power, in watts.
pub const ID_TOTAL_AC_INPUT_POWER: u32 = 2101;

/// Identifier of the grid power at the meter, in watts.
pub const ID_METER_POWER: u32 = 11016;

/// Identifier of the day's production, in kilowatt-hours.
pub const ID_DAILY_PRODUCTION: u32 = 1502;

/// Identifier of the production since installation, as a raw counter of thousandths of a kilowatt-hour.
pub const ID_CUMULATIVE_PRODUCTION: u32 = 1505;

/// Identifier of the energy charged today, in kilowatt-hours.
pub const ID_DAILY_CHARGING: u32 = 6004;

/// Identifier of the energy discharged today, in kilowatt-hours.
pub const ID_DAILY_DISCHARGING: u32 = 6005;

/// Identifier of the energy charged since installation, in kilowatt-hours.
pub const ID_TOTAL_CHARGING: u32 = 6006;

/// Identifier of the energy discharged since installation, in kilowatt-hours.
pub const ID_TOTAL_DISCHARGING: u32 = 6007;

/// Identifier of the energy taken in over AC since installation, in kilowatt-hours.
pub const ID_TOTAL_AC_INPUT_ENERGY: u32 = 2107;

/// One entry of the device's answer: the value of the sensor `id`.
#[derive(Debug, Clone, Copy, PartialEq, Eq, Structural)]
pub struct SensorValue {
    pub id: u32,
    pub value: Milli,
}

/// What the battery is doing.
#[derive(Debug, Clone, Copy, PartialEq, Eq, Structural)]
pub enum BatteryState {
    Static,
    Charging,
    Discharging,
    /// A state known by its code only.
    Unknown(i64),
}

/// The state that the code stands for.
pub open spec fn state_of_code(code: i64) -> BatteryState {
    if code == 1000 {
        BatteryState::Static
    } else if code == 1001 {
        BatteryState::Charging
    } else if code == 1002 {
        BatteryState::Discharging
    } else {
        BatteryState::Unknown(code)
    }
}

/// The label of `state`: its name, or `Unknown(<code>)` for a state known
/// by its code only.
pub open spec fn state_label(state: BatteryState) -> Seq<char> {
    match state {
        BatteryState::Static => "Static"@,
        BatteryState::Charging => "Charging"@,
        BatteryState::Discharging => "Discharging"@,
        BatteryState::Unknown(code) => "Unknown("@ + int_text(code as int) + ")"@,
    }
}

impl BatteryState {
    /// Decodes the battery-state code of the device.
    pub fn from_code(code: i64) -> (state: BatteryState)
        ensures
            state == state_of_code(code),
    {
        if code == 1000 {
            BatteryState::Static
        } else if code == 1001 {
            BatteryState::Charging
        } else if code == 1002 {
            BatteryState::Discharging
        } else {
            BatteryState::Unknown(code)
        }
    }

    /// The label of this state.
    pub fn as_str(&self) -> (label: String)
        ensures
            label@ == state_label(*self),
    {
        match self {
            BatteryState::Static => String::from_str("Static"),
            BatteryState::Charging => String::from_str("Charging"),
            BatteryState::Discharging => String::from_str("Discharging"),
            BatteryState::Unknown(code) => {
                let mut label = String::from_str("Unknown(");
                append_int(&mut label, *code);
                label.append(")");
                label
            },
        }
    }
}

/// The value that the answer holds for the sensor `id`: that of the last
/// entry with this identifier, and zero where there is none.
pub open spec fn value_of(values: Seq<SensorValue>, id: u32) -> Milli
    decreases values.len(),
{
    if values.len() == 0 {
        Milli { thousandths: 0 }
    } else if values.last().id == id {
        values.last().value
    } else {
        value_of(values.drop_last(), id)
    }
}

/// A raw counter in thousandths of the unit, as a quantity in the unit:
/// the counter times 0.001, to the nearest thousandth.
pub open spec fn scaled_counter(raw: Milli) -> Milli {
    Milli { thousandths: nearest_units(raw@) as i64 }
}

/// The whole units of `value` as an `i32`.
pub open spec fn as_watts(value: Milli) -> i32 {
    clamp_i32(whole_units(value@)) as i32
}

/// The whole units of `value` as a code.
pub open spec fn as_code(value: Milli) -> i64 {
    whole_units(value@) as i64
}

/// The values that an answer carries; none where the request failed.
pub open spec fn answered_values(response: Option<&Vec<SensorValue>>) -> Seq<SensorValue> {
    match response {
        Some(values) => values@,
        None => Seq::empty(),
    }
}

/// The snapshot that the values of one answer decode to.
pub open spec fn snapshot_of_values(device_model: Seq<char>, values: Seq<SensorValue>) -> SnapshotView {
    SnapshotView {
        device_model,
        battery_soc: value_of(values, ID_BATTERY_SOC),
        battery_state: state_label(state_of_code(as_code(value_of(values, ID_BATTERY_STATE)))),
        working_mode: mode_label(mode_of_code(as_code(value_of(values, ID_WORKING_MODE)))),
        battery_power_w: as_watts(value_of(values, ID_BATTERY_POWER)),
        dc_input_power1_w: as_watts(value_of(values, ID_DC_INPUT_POWER1)),
        dc_input_power2_w: as_watts(value_of(values, ID_DC_INPUT_POWER2)),
        total_dc_output_power_w: as_watts(value_of(values, ID_TOTAL_DC_OUTPUT_POWER)),
        total_ac_output_power_w: as_watts(value_of(values, ID_TOTAL_AC_OUTPUT_POWER)),
        total_ac_input_power_w: as_watts(value_of(values, ID_TOTAL_AC_INPUT_POWER)),
        meter_power_w: as_watts(value_of(values, ID_METER_POWER)),
        daily_production_kwh: value_of(values, ID_DAILY_PRODUCTION),
        cumulative_production_kwh: scaled_counter(value_of(values, ID_CUMULATIVE_PRODUCTION)),
        daily_charging_kwh: value_of(values, ID_DAILY_CHARGING),
        daily_discharging_kwh: value_of(values, ID_DAILY_DISCHARGING),
        total_charging_kwh: value_of(values, ID_TOTAL_CHARGING),
        total_discharging_kwh: value_of(values, ID_TOTAL_DISCHARGING),
        total_ac_input_energy_kwh: value_of(values, ID_TOTAL_AC_INPUT_ENERGY),
    }
}

/// How the one batched request ended.
#[derive(Debug, Clone)]
pub enum BatchExchange {
    /// The request did not complete.
    TransportFailure,
    /// The device answered with `status`; `body` holds the values that the
    /// body decoded to, if it decoded.
    Answered { status: u16, body: Option<Vec<SensorValue>> },
}

/// The values that an exchange yields: the decoded body of an answer with a
/// success status, and nothing in every other case.
pub open spec fn accepted_batch(exchange: BatchExchange) -> Option<Vec<SensorValue>> {
    match exchange {
        BatchExchange::Answered { status, body } => if status_is_success(status) {
            body
        } else {
            None
        },
        BatchExchange::TransportFailure => None,
    }
}

/// Decides what the batched request contributes to the cycle. There is no
/// partial success: a failure of any kind loses every value.
pub fn accept_batch(exchange: BatchExchange) -> (values: Option<Vec<SensorValue>>)
    ensures
        values == accepted_batch(exchange),
{
    match exchange {
        BatchExchange::Answered { status, body } => {
            if is_success_status(status) {
                body
            } else {
                None
            }
        },
        BatchExchange::TransportFailure => None,
    }
}

/// Finds the value that the answer holds for the sensor `id`.
pub fn find_sensor(values: &Vec<SensorValue>, id: u32) -> (value: Milli)
    ensures
        value == value_of(values@, id),
{
    let mut found = Milli { thousandths: 0 };
    let mut i: usize = 0;
    proof {
        assert(values@.take(0) =~= Seq::<SensorValue>::empty());
    }
    while i < values.len()
        invariant
            0 <= i <= values.len(),
            found == value_of(values@.take(i as int), id),
        decreases values.len() - i,
    {
        proof {
            assert(values@.take(i + 1).drop_last() =~= values@.take(i as int));
            assert(values@.take(i + 1).last() == values@[i as int]);
        }
        if values[i].id == id {
            found = values[i].value;
        }
        i = i + 1;
    }
    proof {
        assert(values@.take(values.len() as int) =~= values@);
    }
    found
}

/// Applies the fixed factor of 0.001 to a raw counter.
pub fn scale_counter(raw: Milli) -> (scaled: Milli)
    ensures
        scaled == scaled_counter(raw),
{
    Milli { thousandths: raw.nearest() }
}

/// A counter of whole thousandths is worth that many thousandths of the
/// unit: a raw 12345 stands for 12.345.
pub proof fn lemma_whole_counter_scale(raw: Milli, count: int)
    requires
        raw@ == count * 1000,
    ensures
        scaled_counter(raw)@ == count,
{
}

/// The label of the battery state with the code `code`.
pub fn decode_battery_state(code: i64) -> (label: String)
    ensures
        label@ == state_label(state_of_code(code)),
{
    BatteryState::from_code(code).as_str()
}

/// The label of the working mode with the register value `code`.
pub fn decode_working_mode(code: i64) -> (label: String)
    ensures
        label@ == mode_label(mode_of_code(code)),
{
    RegisterMode::from_register_value(code).as_str()
}

/// Decodes the values of one answer.
fn decode_values(device_model: &str, values: &Vec<SensorValue>) -> (snapshot: BatterySnapshot)
    ensures
        snapshot@ == snapshot_of_values(device_model@, values@),
{
    BatterySnapshot {
        device_model: String::from_str(device_model),
        battery_soc: find_sensor(values, ID_BATTERY_SOC),
        battery_state: decode_battery_state(find_sensor(values, ID_BATTERY_STATE).whole()),
        working_mode: decode_working_mode(find_sensor(values, ID_WORKING_MODE).whole()),
        battery_power_w: find_sensor(values, ID_BATTERY_POWER).truncated_i32(),
        dc_input_power1_w: find_sensor(values, ID_DC_INPUT_POWER1).truncated_i32(),
        dc_input_power2_w: find_sensor(values, ID_DC_INPUT_POWER2).truncated_i32(),
        total_dc_output_power_w: find_sensor(values, ID_TOTAL_DC_OUTPUT_POWER).truncated_i32(),
        total_ac_output_power_w: find_sensor(values, ID_TOTAL_AC_OUTPUT_POWER).truncated_i32(),
        total_ac_input_power_w: find_sensor(values, ID_TOTAL_AC_INPUT_POWER).truncated_i32(),
        meter_power_w: find_sensor(values, ID_METER_POWER).truncated_i32(),
        daily_production_kwh: find_sensor(values, ID_DAILY_PRODUCTION),
        cumulative_production_kwh: scale_counter(find_sensor(values, ID_CUMULATIVE_PRODUCTION)),
        daily_charging_kwh: find_sensor(values, ID_DAILY_CHARGING),
        daily_discharging_kwh: find_sensor(values, ID_DAILY_DISCHARGING),
        total_charging_kwh: find_sensor(values, ID_TOTAL_CHARGING),
        total_discharging_kwh: find_sensor(values, ID_TOTAL_DISCHARGING),
        total_ac_input_energy_kwh: find_sensor(values, ID_TOTAL_AC_INPUT_ENERGY),
    }
}

/// Assembles the battery snapshot from the answer to the one batched
/// request, `None` standing for a request that failed or an answer that
/// could not be decoded. A sensor that the answer does not hold counts as
/// zero, so a failed request gives the snapshot of no values at all.
pub fn read_battery_snapshot(device_model: &str, response: Option<&Vec<SensorValue>>) -> (snapshot:
    BatterySnapshot)
    ensures
        snapshot@ == snapshot_of_values(device_model@, answered_values(response)),
{
    match response {
        Some(values) => decode_values(device_model, values),
        None => {
            let none: Vec<SensorValue> = Vec::new();
            decode_values(device_model, &none)
        },
    }
}

/// A failed request leaves nothing behind: every number of the snapshot is
/// zero, the state is `Unknown(0)` and the mode `Mode(0)`.
pub proof fn lemma_failed_batch_snapshot(device_model: Seq<char>)
    ensures
        snapshot_of_values(device_model, answered_values(None)) == (SnapshotView {
            device_model,
            battery_state: "Unknown(0)"@,
            working_mode: "Mode(0)"@,
            ..empty_snapshot()
        }),
{
    reveal_strlit("Unknown(");
    reveal_strlit("Mode(");
    reveal_strlit(")");
    reveal_strlit("Unknown(0)");
    reveal_strlit("Mode(0)");
    let values = Seq::<SensorValue>::empty();
    assert(as_code(value_of(values, ID_BATTERY_STATE)) == 0);
    assert(int_text(0) =~= seq!['0']);
    assert(state_label(BatteryState::Unknown(0)) =~= "Unknown(0)"@);
    assert(mode_label(RegisterMode::Mode(0)) =~= "Mode(0)"@);
}

/// The sensors to ask for, in the order of the request.
pub fn sensor_ids() -> (ids: Vec<u32>)
    ensures
        ids@ == seq![
            ID_BATTERY_SOC,
            ID_BATTERY_STATE,
            ID_WORKING_MODE,
            ID_BATTERY_POWER,
            ID_DC_INPUT_POWER1,
            ID_DC_INPUT_POWER2,
            ID_TOTAL_DC_OUTPUT_POWER,
            ID_TOTAL_AC_OUTPUT_POWER,
            ID_TOTAL_AC_INPUT_POWER,
            ID_METER_POWER,
            ID_DAILY_PRODUCTION,
            ID_CUMULATIVE_PRODUCTION,
            ID_DAILY_CHARGING,
            ID_DAILY_DISCHARGING,
            ID_TOTAL_CHARGING,
            ID_TOTAL_DISCHARGING,
            ID_TOTAL_AC_INPUT_ENERGY,
        ],
{
    let mut ids: Vec<u32> = Vec::new();
    ids.push(ID_BATTERY_SOC);
    ids.push(ID_BATTERY_STATE);
    ids.push(ID_WORKING_MODE);
    ids.push(ID_BATTERY_POWER);
    ids.push(ID_DC_INPUT_POWER1);
    ids.push(ID_DC_INPUT_POWER2);
    ids.push(ID_TOTAL_DC_OUTPUT_POWER);
    ids.push(ID_TOTAL_AC_OUTPUT_POWER);
    ids.push(ID_TOTAL_AC_INPUT_POWER);
    ids.push(ID_METER_POWER);
    ids.push(ID_DAILY_PRODUCTION);
    ids.push(ID_CUMULATIVE_PRODUCTION);
    ids.push(ID_DAILY_CHARGING);
    ids.push(ID_DAILY_DISCHARGING);
    ids.push(ID_TOTAL_CHARGING);
    ids.push(ID_TOTAL_DISCHARGING);
    ids.push(ID_TOTAL_AC_INPUT_ENERGY);
    proof {
        assert(ids@ =~= seq![
            ID_BATTERY_SOC,
            ID_BATTERY_STATE,
            ID_WORKING_MODE,
            ID_BATTERY_POWER,
            ID_DC_INPUT_POWER1,
            ID_DC_INPUT_POWER2,
            ID_TOTAL_DC_OUTPUT_POWER,
            ID_TOTAL_AC_OUTPUT_POWER,
            ID_TOTAL_AC_INPUT_POWER,
            ID_METER_POWER,
            ID_DAILY_PRODUCTION,
            ID_CUMULATIVE_PRODUCTION,
            ID_DAILY_CHARGING,
            ID_DAILY_DISCHARGING,
            ID_TOTAL_CHARGING,
            ID_TOTAL_DISCHARGING,
            ID_TOTAL_AC_INPUT_ENERGY,
        ]);
    }
    ids
}

/// The address to which the batched request for the device at `base_url`
/// goes.
pub fn get_data_url(base_url: &str) -> (url: String)
    ensures
        url@ == base_url@ + "/rpc/Indevolt.GetData"@,
{
    let mut url = String::from_str(base_url);
    url.append("/rpc/Indevolt.GetData");
    url
}

} // verus!
