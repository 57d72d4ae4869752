//! The register protocol's commands: what each control intent writes to
//! which register, and what the device's answer to a write means.

use crate::http::{is_success_status, status_is_success};
use crate::indevolt::models::ControlCommand;
use crate::text::{append_int, int_text};
use vstd::prelude::*;
use vstd::string::*;

verus! {

/// Register of the working mode.
pub const REG_WORKING_MODE: u32 = 47005;

/// Register of the real-time charge and discharge commands.
pub const REG_CONTROL: u32 = 47015;

/// Function code for writing registers.
pub const FUNC_WRITE: u32 = 16;

/// First value written to `REG_CONTROL` to stand by.
pub const ACTION_STOP: i64 = 0;

/// First value written to `REG_CONTROL` to charge.
pub const ACTION_CHARGE: i64 = 1;

/// First value written to `REG_CONTROL` to discharge.
pub const ACTION_DISCHARGE: i64 = 2;

/// State of charge up to which the plain charge command charges, in percent.
pub const DEFAULT_CHARGE_CEILING: u8 = 100;

/// State of charge down to which the plain discharge command discharges, in
/// percent.
pub const DEFAULT_DISCHARGE_FLOOR: u8 = 10;

/// One register write: function `f`, register `t`, values `v`.
#[derive(Debug, Clone)]
pub struct SetDataConfig {
    pub f: u32,
    pub t: u32,
    pub v: Vec<i64>,
}

/// The working modes of the register protocol.
#[derive(Debug, Clone, Copy, PartialEq, Eq, Structural)]
pub enum RegisterMode {
    /// The device runs itself: solar first, the battery as a buffer.
    SelfConsumedPrioritized,
    /// The device takes charge and discharge commands.
    RealtimeControl,
    /// The device follows its schedule.
    Schedule,
    /// A mode known by its code only.
    Mode(i64),
}

/// The mode that the register value `code` stands for.
pub open spec fn mode_of_code(code: i64) -> RegisterMode {
    if code == 1 {
        RegisterMode::SelfConsumedPrioritized
    } else if code == 4 {
        RegisterMode::RealtimeControl
    } else if code == 5 {
        RegisterMode::Schedule
    } else {
        RegisterMode::Mode(code)
    }
}

/// The register value that selects `mode`.
pub open spec fn code_of_mode(mode: RegisterMode) -> i64 {
    match mode {
        RegisterMode::SelfConsumedPrioritized => 1,
        RegisterMode::RealtimeControl => 4,
        RegisterMode::Schedule => 5,
        RegisterMode::Mode(code) => code,
    }
}

/// The label of `mode`: its name, or `Mode(<code>)` for a mode known by its
/// code only.
pub open spec fn mode_label(mode: RegisterMode) -> Seq<char> {
    match mode {
        RegisterMode::SelfConsumedPrioritized => "SelfConsumedPrioritized"@,
        RegisterMode::RealtimeControl => "RealtimeControl"@,
        RegisterMode::Schedule => "Schedule"@,
        RegisterMode::Mode(code) => "Mode("@ + int_text(code as int) + ")"@,
    }
}

impl RegisterMode {
    /// Decodes the working-mode register.
    pub fn from_register_value(code: i64) -> (mode: RegisterMode)
        ensures
            mode == mode_of_code(code),
    {
        if code == 1 {
            RegisterMode::SelfConsumedPrioritized
        } else if code == 4 {
            RegisterMode::RealtimeControl
        } else if code == 5 {
            RegisterMode::Schedule
        } else {
            RegisterMode::Mode(code)
        }
    }

    /// The value to write to the working-mode register for this mode.
    pub fn register_value(&self) -> (code: i64)
        ensures
            code == code_of_mode(*self),
    {
        match self {
            RegisterMode::SelfConsumedPrioritized => 1,
            RegisterMode::RealtimeControl => 4,
            RegisterMode::Schedule => 5,
            RegisterMode::Mode(code) => *code,
        }
    }

    /// The label of this mode.
    pub fn as_str(&self) -> (label: String)
        ensures
            label@ == mode_label(*self),
    {
        match self {
            RegisterMode::SelfConsumedPrioritized => String::from_str("SelfConsumedPrioritized"),
            RegisterMode::RealtimeControl => String::from_str("RealtimeControl"),
            RegisterMode::Schedule => String::from_str("Schedule"),
            RegisterMode::Mode(code) => {
                let mut label = String::from_str("Mode(");
                append_int(&mut label, *code);
                label.append(")");
                label
            },
        }
    }
}

/// Decoding the register value of a mode gives a mode with that register
/// value, and the three named modes decode to themselves.
pub proof fn lemma_mode_code_round_trip(mode: RegisterMode, code: i64)
    ensures
        code_of_mode(mode_of_code(code)) == code,
        !(mode is Mode) ==> mode_of_code(code_of_mode(mode)) == mode,
{
}

/// One atomic command to the device.
#[derive(Debug, Clone, Copy, PartialEq, Eq, Structural)]
pub enum ControlIntent {
    /// Select a working mode.
    SetWorkingMode(RegisterMode),
    /// Charge at `watts` until the state of charge reaches `soc_ceiling` percent.
    Charge { watts: i32, soc_ceiling: u8 },
    /// Discharge at `watts` until the state of charge falls to `soc_floor` percent.
    Discharge { watts: i32, soc_floor: u8 },
    /// Stand by.
    Stop,
}

/// The register that `intent` writes.
pub open spec fn register_of(intent: ControlIntent) -> u32 {
    match intent {
        ControlIntent::SetWorkingMode(_) => REG_WORKING_MODE,
        _ => REG_CONTROL,
    }
}

/// The values that `intent` writes.
pub open spec fn values_of(intent: ControlIntent) -> Seq<i64> {
    match intent {
        ControlIntent::SetWorkingMode(mode) => seq![code_of_mode(mode)],
        ControlIntent::Charge { watts, soc_ceiling } => seq![
            ACTION_CHARGE,
            watts as i64,
            soc_ceiling as i64,
        ],
        ControlIntent::Discharge { watts, soc_floor } => seq![
            ACTION_DISCHARGE,
            watts as i64,
            soc_floor as i64,
        ],
        ControlIntent::Stop => seq![ACTION_STOP, 0i64, 0i64],
    }
}

/// `command` is the register write of `intent`.
pub open spec fn encodes(command: SetDataConfig, intent: ControlIntent) -> bool {
    &&& command.f == FUNC_WRITE
    &&& command.t == register_of(intent)
    &&& command.v@ == values_of(intent)
}

/// The write that selects `mode`. Real-time control must be selected before
/// charge, discharge and stop commands are sent; the caller sees to that.
pub fn set_working_mode(mode: RegisterMode) -> (command: SetDataConfig)
    ensures
        encodes(command, ControlIntent::SetWorkingMode(mode)),
{
    let mut v: Vec<i64> = Vec::new();
    v.push(mode.register_value());
    proof {
        assert(v@ =~= values_of(ControlIntent::SetWorkingMode(mode)));
    }
    SetDataConfig { f: FUNC_WRITE, t: REG_WORKING_MODE, v }
}

/// The write that hands the device over to real-time control.
pub fn enable_realtime_mode() -> (command: SetDataConfig)
    ensures
        encodes(command, ControlIntent::SetWorkingMode(RegisterMode::RealtimeControl)),
{
    set_working_mode(RegisterMode::RealtimeControl)
}

/// The write that hands control back to the device.
pub fn restore_auto_mode() -> (command: SetDataConfig)
    ensures
        encodes(command, ControlIntent::SetWorkingMode(RegisterMode::SelfConsumedPrioritized)),
{
    set_working_mode(RegisterMode::SelfConsumedPrioritized)
}

/// The three values of a write to the control register.
fn control_values(action: i64, watts: i32, soc: u8) -> (v: Vec<i64>)
    ensures
        v@ == seq![action, watts as i64, soc as i64],
{
    let mut v: Vec<i64> = Vec::new();
    v.push(action);
    v.push(watts as i64);
    v.push(soc as i64);
    proof {
        assert(v@ =~= seq![action, watts as i64, soc as i64]);
    }
    v
}

/// The write that charges at `watts` up to `max_soc_percent`.
pub fn charge(watts: i32, max_soc_percent: u8) -> (command: SetDataConfig)
    ensures
        encodes(command, ControlIntent::Charge { watts, soc_ceiling: max_soc_percent }),
{
    SetDataConfig {
        f: FUNC_WRITE,
        t: REG_CONTROL,
        v: control_values(ACTION_CHARGE, watts, max_soc_percent),
    }
}

/// The write that discharges at `watts` down to `min_soc_percent`.
pub fn discharge(watts: i32, min_soc_percent: u8) -> (command: SetDataConfig)
    ensures
        encodes(command, ControlIntent::Discharge { watts, soc_floor: min_soc_percent }),
{
    SetDataConfig {
        f: FUNC_WRITE,
        t: REG_CONTROL,
        v: control_values(ACTION_DISCHARGE, watts, min_soc_percent),
    }
}

/// The write that makes the device stand by. The working mode stays as it
/// is.
pub fn stop() -> (command: SetDataConfig)
    ensures
        encodes(command, ControlIntent::Stop),
{
    SetDataConfig { f: FUNC_WRITE, t: REG_CONTROL, v: control_values(ACTION_STOP, 0, 0) }
}

/// The write that charges at `watts` up to a full battery.
pub fn set_charge_power(watts: i32) -> (command: SetDataConfig)
    ensures
        encodes(command, ControlIntent::Charge { watts, soc_ceiling: DEFAULT_CHARGE_CEILING }),
{
    charge(watts, DEFAULT_CHARGE_CEILING)
}

/// The write that discharges at `watts` down to the default reserve.
pub fn set_discharge_power(watts: i32) -> (command: SetDataConfig)
    ensures
        encodes(command, ControlIntent::Discharge { watts, soc_floor: DEFAULT_DISCHARGE_FLOOR }),
{
    discharge(watts, DEFAULT_DISCHARGE_FLOOR)
}

/// Encodes a control intent as the one register write that carries it.
pub fn encode(intent: ControlIntent) -> (command: SetDataConfig)
    ensures
        encodes(command, intent),
{
    match intent {
        ControlIntent::SetWorkingMode(mode) => set_working_mode(mode),
        ControlIntent::Charge { watts, soc_ceiling } => charge(watts, soc_ceiling),
        ControlIntent::Discharge { watts, soc_floor } => discharge(watts, soc_floor),
        ControlIntent::Stop => stop(),
    }
}

/// The address to which register writes for the device at `base_url` go.
pub fn set_data_url(base_url: &str) -> (url: String)
    ensures
        url@ == base_url@ + "/rpc/Indevolt.SetData"@,
{
    let mut url = String::from_str(base_url);
    url.append("/rpc/Indevolt.SetData");
    url
}

/// The address to which commands of the key/value protocol go.
pub fn control_url(base_url: &str) -> (url: String)
    ensures
        url@ == base_url@ + "/device/control"@,
{
    let mut url = String::from_str(base_url);
    url.append("/device/control");
    url
}

/// The values `v` from index `from` on, written one after the other with
/// `", "` between them.
pub open spec fn values_text(v: Seq<i64>, from: int) -> Seq<char>
    decreases v.len() - from,
{
    if from >= v.len() {
        Seq::empty()
    } else if from + 1 == v.len() {
        int_text(v[from] as int)
    } else {
        int_text(v[from] as int) + ", "@ + values_text(v, from + 1)
    }
}

/// A register write as text: `t=<register> v=[<values>]`.
pub open spec fn command_text(t: u32, v: Seq<i64>) -> Seq<char> {
    "t="@ + int_text(t as int) + " v=["@ + values_text(v, 0) + "]"@
}

/// Appends the values of `v` from `from` on to `out`.
fn append_values(out: &mut String, v: &Vec<i64>, from: usize)
    requires
        from <= v.len(),
    ensures
        final(out)@ == old(out)@ + values_text(v@, from as int),
    decreases v.len() - from,
{
    if from >= v.len() {
        proof {
            assert(final(out)@ =~= old(out)@ + values_text(v@, from as int));
        }
    } else {
        append_int(out, v[from]);
        if from + 1 < v.len() {
            out.append(", ");
            append_values(out, v, from + 1);
        }
        proof {
            assert(final(out)@ =~= old(out)@ + values_text(v@, from as int));
        }
    }
}

/// Appends a register write as text to `out`.
pub fn append_command(out: &mut String, command: &SetDataConfig)
    ensures
        final(out)@ == old(out)@ + command_text(command.t, command.v@),
{
    out.append("t=");
    append_int(out, command.t as i64);
    out.append(" v=[");
    append_values(out, &command.v, 0);
    out.append("]");
    proof {
        assert(final(out)@ =~= old(out)@ + command_text(command.t, command.v@));
    }
}

/// A command in the form in which it goes over the wire: a register write,
/// or a key and a value.
#[derive(Debug)]
pub enum WireCommand {
    Register(SetDataConfig),
    KeyValue(ControlCommand),
}

/// A command on the wire as text: `SetData t=<register> v=[<values>]`, or
/// `control <key>=<value>`.
pub open spec fn wire_text(command: WireCommand) -> Seq<char> {
    match command {
        WireCommand::Register(write) => "SetData "@ + command_text(write.t, write.v@),
        WireCommand::KeyValue(pair) => "control "@ + pair.key@ + "="@ + pair.value@,
    }
}

/// Appends a command on the wire as text to `out`.
pub fn append_wire_command(out: &mut String, command: &WireCommand)
    ensures
        final(out)@ == old(out)@ + wire_text(*command),
{
    match command {
        WireCommand::Register(write) => {
            out.append("SetData ");
            append_command(out, write);
            proof {
                assert(final(out)@ =~= old(out)@ + wire_text(*command));
            }
        },
        WireCommand::KeyValue(pair) => {
            out.append("control ");
            out.append(pair.key.as_str());
            out.append("=");
            out.append(pair.value.as_str());
            proof {
                assert(final(out)@ =~= old(out)@ + wire_text(*command));
            }
        },
    }
}

/// How the one HTTP exchange of a command ended.
#[derive(Debug, Clone)]
pub enum HttpOutcome {
    /// The request did not complete; the text says why.
    TransportFailure(String),
    /// The device answered.
    Response { status: u16, body: String },
}

/// Why a command did not take effect. Each error carries the command that
/// it is about.
#[derive(Debug)]
pub enum DispatchError {
    /// The device answered with a status that is no success.
    Rejected { status: u16, body: String, command: WireCommand },
    /// The request did not complete.
    Transport { detail: String, command: WireCommand },
}

/// What the outcome of the exchange means for `command`: any success status
/// is success; any other status and any transport failure is the error that
/// carries what came back and the command.
pub open spec fn dispatch_result(command: WireCommand, outcome: HttpOutcome) -> Result<
    (),
    DispatchError,
> {
    match outcome {
        HttpOutcome::Response { status, body } => if status_is_success(status) {
            Ok(())
        } else {
            Err(DispatchError::Rejected { status, body, command })
        },
        HttpOutcome::TransportFailure(detail) => Err(DispatchError::Transport { detail, command }),
    }
}

/// Classifies the outcome of the exchange that carried `command`. Nothing
/// is retried.
pub fn classify_dispatch(command: WireCommand, outcome: HttpOutcome) -> (result: Result<
    (),
    DispatchError,
>)
    ensures
        result == dispatch_result(command, outcome),
{
    match outcome {
        HttpOutcome::Response { status, body } => {
            if is_success_status(status) {
                Ok(())
            } else {
                Err(DispatchError::Rejected { status, body, command })
            }
        },
        HttpOutcome::TransportFailure(detail) => Err(DispatchError::Transport { detail, command }),
    }
}

/// The command that a dispatch error is about.
pub open spec fn command_of(error: DispatchError) -> WireCommand {
    match error {
        DispatchError::Rejected { command, .. } => command,
        DispatchError::Transport { command, .. } => command,
    }
}

/// A command succeeds exactly when the device answers with a success
/// status, and every error is about the command that was sent.
pub proof fn lemma_dispatch_outcomes(command: WireCommand, outcome: HttpOutcome)
    ensures
        dispatch_result(command, outcome) is Ok <==> (outcome is Response && status_is_success(
            outcome->status,
        )),
        dispatch_result(command, outcome) matches Err(error) ==> command_of(error) == command,
{
}

/// The description of a dispatch error: the command, and what came back.
pub open spec fn error_text(error: DispatchError) -> Seq<char> {
    match error {
        DispatchError::Rejected { status, body, command } => "[Indevolt] "@ + wire_text(command)
            + " rejected (HTTP "@ + int_text(status as int) + "): "@ + body@,
        DispatchError::Transport { detail, command } => "[Indevolt] HTTP error sending "@
            + wire_text(command) + ": "@ + detail@,
    }
}

impl DispatchError {
    /// Describes the error for a log or a caller.
    pub fn describe(&self) -> (text: String)
        ensures
            text@ == error_text(*self),
    {
        match self {
            DispatchError::Rejected { status, body, command } => {
                let mut text = String::from_str("[Indevolt] ");
                append_wire_command(&mut text, command);
                text.append(" rejected (HTTP ");
                append_int(&mut text, *status as i64);
                text.append("): ");
                text.append(body.as_str());
                text
            },
            DispatchError::Transport { detail, command } => {
                let mut text = String::from_str("[Indevolt] HTTP error sending ");
                append_wire_command(&mut text, command);
                text.append(": ");
                text.append(detail.as_str());
                text
            },
        }
    }
}

} // verus!
