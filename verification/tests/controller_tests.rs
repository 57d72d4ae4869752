use ems::indevolt::controller::{
    append_command, charge, classify_dispatch, control_url, discharge, enable_realtime_mode,
    encode, restore_auto_mode, set_charge_power, set_data_url, set_discharge_power,
    append_wire_command, set_working_mode, stop, ControlIntent, DispatchError, HttpOutcome,
    RegisterMode, SetDataConfig, WireCommand,
};
use ems::indevolt::models::{ControlCommand, WorkingMode};

#[test]
fn working_mode_is_written_to_its_register() {
    let command = set_working_mode(RegisterMode::Schedule);
    assert_eq!(command.f, 16);
    assert_eq!(command.t, 47005);
    assert_eq!(command.v, vec![5]);
    assert_eq!(set_working_mode(RegisterMode::Mode(9)).v, vec![9]);
}

#[test]
fn realtime_mode_writes_four() {
    let command = enable_realtime_mode();
    assert_eq!((command.f, command.t), (16, 47005));
    assert_eq!(command.v, vec![4]);
}

#[test]
fn auto_mode_writes_one() {
    let command = restore_auto_mode();
    assert_eq!((command.f, command.t), (16, 47005));
    assert_eq!(command.v, vec![1]);
}

#[test]
fn charge_writes_action_power_and_ceiling() {
    let command = charge(2400, 95);
    assert_eq!((command.f, command.t), (16, 47015));
    assert_eq!(command.v, vec![1, 2400, 95]);
    assert_eq!(charge(-1, 0).v, vec![1, -1, 0]);
}

#[test]
fn discharge_writes_action_power_and_floor() {
    let command = discharge(1800, 15);
    assert_eq!((command.f, command.t), (16, 47015));
    assert_eq!(command.v, vec![2, 1800, 15]);
}

#[test]
fn stop_writes_zeroes() {
    let command = stop();
    assert_eq!((command.f, command.t), (16, 47015));
    assert_eq!(command.v, vec![0, 0, 0]);
}

#[test]
fn plain_power_commands_use_the_default_bounds() {
    assert_eq!(set_charge_power(2000).v, vec![1, 2000, 100]);
    assert_eq!(set_discharge_power(2000).v, vec![2, 2000, 10]);
}

#[test]
fn every_intent_encodes_as_its_write() {
    let mode = encode(ControlIntent::SetWorkingMode(RegisterMode::RealtimeControl));
    assert_eq!((mode.f, mode.t, mode.v), (16, 47005, vec![4]));
    let up = encode(ControlIntent::Charge { watts: 500, soc_ceiling: 80 });
    assert_eq!((up.f, up.t, up.v), (16, 47015, vec![1, 500, 80]));
    let down = encode(ControlIntent::Discharge { watts: 700, soc_floor: 20 });
    assert_eq!((down.f, down.t, down.v), (16, 47015, vec![2, 700, 20]));
    let halt = encode(ControlIntent::Stop);
    assert_eq!((halt.f, halt.t, halt.v), (16, 47015, vec![0, 0, 0]));
}

#[test]
fn register_modes_have_their_values_and_labels() {
    assert_eq!(RegisterMode::SelfConsumedPrioritized.register_value(), 1);
    assert_eq!(RegisterMode::RealtimeControl.register_value(), 4);
    assert_eq!(RegisterMode::Schedule.register_value(), 5);
    assert_eq!(RegisterMode::Mode(12).register_value(), 12);
    assert_eq!(RegisterMode::SelfConsumedPrioritized.as_str(), "SelfConsumedPrioritized");
    assert_eq!(RegisterMode::RealtimeControl.as_str(), "RealtimeControl");
    assert_eq!(RegisterMode::Schedule.as_str(), "Schedule");
    assert_eq!(RegisterMode::Mode(-3).as_str(), "Mode(-3)");
}

#[test]
fn register_values_decode_to_modes_with_those_values() {
    for code in -3i64..10 {
        assert_eq!(RegisterMode::from_register_value(code).register_value(), code);
    }
}

#[test]
fn urls_name_their_calls() {
    assert_eq!(set_data_url("http://192.168.1.20"), "http://192.168.1.20/rpc/Indevolt.SetData");
    assert_eq!(control_url("http://192.168.1.20"), "http://192.168.1.20/device/control");
}

#[test]
fn any_success_status_is_ok() {
    for status in vec![200u16, 201, 204, 299] {
        let outcome = HttpOutcome::Response { status, body: String::new() };
        assert!(classify_dispatch(WireCommand::Register(stop()), outcome).is_ok());
    }
}

#[test]
fn any_other_status_is_a_rejection_with_the_command() {
    for status in vec![100u16, 199, 300, 404, 500] {
        let outcome = HttpOutcome::Response { status, body: "busy".to_string() };
        match classify_dispatch(WireCommand::Register(charge(2400, 100)), outcome) {
            Err(DispatchError::Rejected { status: s, body, command: WireCommand::Register(write) }) => {
                assert_eq!(s, status);
                assert_eq!(body, "busy");
                assert_eq!((write.f, write.t, write.v), (16, 47015, vec![1, 2400, 100]));
            }
            _ => panic!("expected a rejection"),
        }
    }
}

#[test]
fn a_transport_failure_is_an_error_with_the_command() {
    let outcome = HttpOutcome::TransportFailure("connection refused".to_string());
    match classify_dispatch(WireCommand::Register(stop()), outcome) {
        Err(DispatchError::Transport { detail, command: WireCommand::Register(write) }) => {
            assert_eq!(detail, "connection refused");
            assert_eq!((write.t, write.v), (47015, vec![0, 0, 0]));
        }
        _ => panic!("expected a transport error"),
    }
}

#[test]
fn errors_describe_what_came_back_and_the_command() {
    let rejected = DispatchError::Rejected {
        status: 503,
        body: "busy".to_string(),
        command: WireCommand::Register(charge(2400, 100)),
    };
    assert_eq!(
        rejected.describe(),
        "[Indevolt] SetData t=47015 v=[1, 2400, 100] rejected (HTTP 503): busy"
    );
    let transport = DispatchError::Transport {
        detail: "timed out".to_string(),
        command: WireCommand::Register(set_working_mode(RegisterMode::RealtimeControl)),
    };
    assert_eq!(
        transport.describe(),
        "[Indevolt] HTTP error sending SetData t=47005 v=[4]: timed out"
    );
}

#[test]
fn commands_are_written_as_text() {
    let mut out = String::from(">");
    append_command(&mut out, &SetDataConfig { f: 16, t: 1, v: Vec::new() });
    assert_eq!(out, ">t=1 v=[]");
    let mut two = String::new();
    append_command(&mut two, &SetDataConfig { f: 16, t: 47015, v: vec![2, -5] });
    assert_eq!(two, "t=47015 v=[2, -5]");
}

#[test]
fn key_value_commands_are_classified_and_described() {
    let command = WireCommand::KeyValue(ControlCommand::set_working_mode(&WorkingMode::Manual));
    let outcome = HttpOutcome::Response { status: 400, body: "no".to_string() };
    match classify_dispatch(command, outcome) {
        Err(e) => {
            assert_eq!(e.describe(), "[Indevolt] control WorkingMode=Manual rejected (HTTP 400): no");
        }
        Ok(()) => panic!("expected a rejection"),
    }
    let accepted = classify_dispatch(
        WireCommand::KeyValue(ControlCommand::set_charge_power(2400)),
        HttpOutcome::Response { status: 204, body: String::new() },
    );
    assert!(accepted.is_ok());
    let unsent = DispatchError::Transport {
        detail: "dns".to_string(),
        command: WireCommand::KeyValue(ControlCommand::set_discharge_power(-7)),
    };
    assert_eq!(unsent.describe(), "[Indevolt] HTTP error sending control MaxDischargePower=-7: dns");
}

#[test]
fn wire_commands_are_written_as_text() {
    let mut out = String::from("#");
    append_wire_command(&mut out, &WireCommand::Register(stop()));
    assert_eq!(out, "#SetData t=47015 v=[0, 0, 0]");
    let mut pair = String::new();
    append_wire_command(&mut pair, &WireCommand::KeyValue(ControlCommand::set_charge_power(5)));
    assert_eq!(pair, "control MaxChargePower=5");
}
