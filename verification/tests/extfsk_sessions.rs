use hamlibptt::common::config::{
    CommandKind, Config, ConfigCommands, ConfigControlMode, ConfigFsk, ConfigFskTarget,
    ConfigRigctl, ConfigRigctld,
};
use hamlibptt::common::error::HamlibPttError;
use hamlibptt::extfsk::fsk::{is_busy, put_char};
use hamlibptt::extfsk::parameter::{ExtfskParameter, ExtfskStopbit};
use hamlibptt::extfsk::ptt::set_ptt;
use hamlibptt::extfsk::session::{
    close, initialized_message, open, plan_commander, plan_fsk, ptt_message_text, CloseAction,
    CloseEvent, CommanderPlan, FskPlan, OpenAction, OpenEvent,
};
use hamlibptt::extfsk::{
    close_commander, close_fsk, commander_outcome, initialize_fsk, initialize_ptt,
    send_hamlib_command, Extfsk,
};
use hamlibptt::hamlib::HamlibError;
use hamlibptt::rigctl::{call, call_rigctl_outcome, RigCall};
use hamlibptt::spinfsk::{FskParameter, FskStopbit, FskTarget};

fn strings(v: &[&str]) -> Vec<String> {
    v.iter().map(|s| s.to_string()).collect()
}

fn commands() -> ConfigCommands {
    ConfigCommands {
        open: Some(strings(&["M", "PKTUSB", "2400"])),
        close: None,
        tx: Some(strings(&["T", "1"])),
        rx: Some(strings(&[])),
    }
}

fn rigctl() -> ConfigRigctl {
    ConfigRigctl { rigctl_path: "rigctl".to_string(), model_id: 1, device: "COM4".to_string() }
}

fn config(mode: ConfigControlMode) -> Config {
    Config {
        mode,
        rigctl: Some(rigctl()),
        rigctld: Some(ConfigRigctld { address: "127.0.0.1:4532".to_string() }),
        enable_fsk: None,
        fsk: None,
        commands: commands(),
    }
}

fn parameter() -> ExtfskParameter {
    ExtfskParameter { baud: 45, stop_bit: ExtfskStopbit::OneHalf, length: 5 }
}

#[test]
fn registry_registers_once() {
    let mut state: Extfsk<u32, u8> = Extfsk::new();
    assert!(state.commander.is_none() && state.commands.is_none() && state.fsk.is_none());
    initialize_ptt(&mut state, 1, commands());
    initialize_ptt(&mut state, 2, ConfigCommands { open: None, close: None, tx: None, rx: None });
    assert_eq!(state.commander, Some(1));
    assert_eq!(state.commands.as_ref().unwrap().tx, Some(strings(&["T", "1"])));
    initialize_fsk(&mut state, 7);
    initialize_fsk(&mut state, 8);
    assert_eq!(state.fsk, Some(7));
}

#[test]
fn send_hamlib_command_decides_what_to_send() {
    let mut state: Extfsk<u32, u8> = Extfsk::new();
    assert_eq!(send_hamlib_command(&state, CommandKind::Tx), None);
    assert!(!close_fsk(&state));
    initialize_ptt(&mut state, 1, commands());
    assert_eq!(send_hamlib_command(&state, CommandKind::Tx), Some(&strings(&["T", "1"])));
    assert_eq!(send_hamlib_command(&state, CommandKind::Rx), None);
    assert_eq!(send_hamlib_command(&state, CommandKind::Close), None);
    assert_eq!(
        send_hamlib_command(&state, CommandKind::Open),
        Some(&strings(&["M", "PKTUSB", "2400"]))
    );
    initialize_fsk(&mut state, 3);
    assert!(close_fsk(&state));
}

#[test]
fn close_commander_and_outcomes() {
    let mut state: Extfsk<u32, u8> = Extfsk::new();
    assert!(!close_commander(&state));
    initialize_ptt(&mut state, 1, commands());
    assert!(close_commander(&state));
    assert!(commander_outcome(Ok(())).is_ok());
    match commander_outcome(Err(HamlibError::Control("refused".to_string()))) {
        Err(HamlibPttError::Hamlib(HamlibError::Control(m))) => assert_eq!(m, "refused"),
        other => panic!("unexpected {other:?}"),
    }
}

#[test]
fn fsk_calls() {
    assert_eq!(is_busy(None).unwrap(), false);
    assert_eq!(is_busy(Some(true)).unwrap(), true);
    assert_eq!(is_busy(Some(false)).unwrap(), false);
    let mut state: Extfsk<u32, u8> = Extfsk::new();
    assert_eq!(put_char(&state, b'A'), None);
    initialize_fsk(&mut state, 0);
    assert_eq!(put_char(&state, b'A'), Some(b'A'));
}

#[test]
fn ptt_chooses_tx_or_rx() {
    assert_eq!(set_ptt(true, false), CommandKind::Tx);
    assert_eq!(set_ptt(false, true), CommandKind::Rx);
    assert_eq!(set_ptt(true, true), CommandKind::Tx);
}

#[test]
fn commander_plans_and_messages() {
    let plan = plan_commander(&config(ConfigControlMode::Rigctl)).unwrap();
    assert_eq!(ptt_message_text(&plan), "rigctl at rigctl (id=1, device=COM4)");
    let plan = plan_commander(&config(ConfigControlMode::RigctlRetained)).unwrap();
    assert_eq!(ptt_message_text(&plan), "retained connection rigctl at rigctl (id=1, device=COM4)");
    let plan = plan_commander(&config(ConfigControlMode::Rigctld)).unwrap();
    assert_eq!(ptt_message_text(&plan), "rigctld on 127.0.0.1:4532");
    let plan = plan_commander(&config(ConfigControlMode::RigctldRetained)).unwrap();
    assert_eq!(ptt_message_text(&plan), "retained connection rigctld on 127.0.0.1:4532");

    let mut missing = config(ConfigControlMode::Rigctld);
    missing.rigctld = None;
    assert!(matches!(plan_commander(&missing), Err(HamlibPttError::ConfigDataInvalid)));
    let mut missing = config(ConfigControlMode::RigctlRetained);
    missing.rigctl = None;
    assert!(matches!(plan_commander(&missing), Err(HamlibPttError::ConfigDataInvalid)));
}

fn fsk_section() -> ConfigFsk {
    ConfigFsk { device: "COM5".to_string(), target: ConfigFskTarget::Rts, invert: None }
}

#[test]
fn fsk_plans() {
    let mut c = config(ConfigControlMode::Rigctl);
    assert!(plan_fsk(&c, parameter()).unwrap().is_none());
    c.enable_fsk = Some(false);
    c.fsk = Some(fsk_section());
    assert!(plan_fsk(&c, parameter()).unwrap().is_none());
    c.enable_fsk = Some(true);
    let plan = plan_fsk(&c, parameter()).unwrap().unwrap();
    assert_eq!(plan.device, "COM5");
    assert_eq!(
        plan.parameter,
        FskParameter {
            data_bits: 5,
            baud: 45,
            stop_bit: FskStopbit::OneHalf,
            target: FskTarget::Rts,
            invert: false,
        }
    );
    c.fsk = None;
    assert!(matches!(plan_fsk(&c, parameter()), Err(HamlibPttError::ConfigDataInvalid)));
}

#[test]
fn initialized_message_text() {
    let plan = CommanderPlan::Rigctld(ConfigRigctld { address: "127.0.0.1:4532".to_string() });
    assert_eq!(
        initialized_message(&plan, &None),
        "Initialized successfully!\n\nPTT: rigctld on 127.0.0.1:4532\n\nFSK: disabled"
    );
    let fsk = FskPlan {
        device: "COM5".to_string(),
        parameter: FskParameter {
            data_bits: 5,
            baud: 45,
            stop_bit: FskStopbit::One,
            target: FskTarget::Dtr,
            invert: true,
        },
    };
    assert_eq!(
        initialized_message(&plan, &Some(fsk)),
        "Initialized successfully!\n\nPTT: rigctld on 127.0.0.1:4532\n\nFSK: enabled on COM5 \
         (FskParameter { data_bits: 5, baud: 45.0, stop_bit: One, target: Dtr, invert: true })"
    );
}

#[test]
fn open_runs_every_step_in_order() {
    let mut c = config(ConfigControlMode::Rigctl);
    c.enable_fsk = Some(true);
    c.fsk = Some(fsk_section());
    let (s, a) = open(parameter());
    assert!(matches!(a, OpenAction::LoadConfig));
    let (s, a) = s.step(OpenEvent::ConfigLoaded(c));
    assert!(matches!(a, OpenAction::CreateCommander(CommanderPlan::Rigctl(ref r)) if r.device == "COM4"));
    let (s, a) = s.step(OpenEvent::Succeeded);
    assert!(matches!(a, OpenAction::RegisterPtt(ref k) if k.tx == Some(strings(&["T", "1"]))));
    let (s, a) = s.step(OpenEvent::Succeeded);
    assert!(matches!(a, OpenAction::SendOpenCommands));
    let (s, a) = s.step(OpenEvent::Succeeded);
    assert!(matches!(a, OpenAction::StartFsk(ref f) if f.device == "COM5"));
    let (s, a) = s.step(OpenEvent::Succeeded);
    assert!(matches!(a, OpenAction::ShowInfo { fsk: Some(_), .. }));
    let (s, a) = s.step(OpenEvent::Succeeded);
    assert!(matches!(a, OpenAction::Finish(Ok(()))));
    let (_, a) = s.step(OpenEvent::Succeeded);
    assert!(matches!(a, OpenAction::Finish(Err(HamlibPttError::InvalidState))));
}

#[test]
fn open_without_fsk_skips_the_keyer() {
    let (s, _) = open(parameter());
    let (s, _) = s.step(OpenEvent::ConfigLoaded(config(ConfigControlMode::Rigctld)));
    let (s, _) = s.step(OpenEvent::Succeeded);
    let (s, _) = s.step(OpenEvent::Succeeded);
    let (s, a) = s.step(OpenEvent::Succeeded);
    assert!(matches!(a, OpenAction::ShowInfo { fsk: None, .. }));
    let (_, a) = s.step(OpenEvent::Succeeded);
    assert!(matches!(a, OpenAction::Finish(Ok(()))));
}

#[test]
fn open_stops_at_the_first_failure() {
    let (s, _) = open(parameter());
    let (_, a) = s.step(OpenEvent::Failed(HamlibPttError::Io("no file".to_string())));
    assert!(matches!(a, OpenAction::Finish(Err(HamlibPttError::Io(ref m))) if m == "no file"));

    let (s, _) = open(parameter());
    let (s, _) = s.step(OpenEvent::ConfigLoaded(config(ConfigControlMode::Rigctl)));
    let (s, _) = s.step(OpenEvent::Succeeded);
    let (s, _) = s.step(OpenEvent::Succeeded);
    let (_, a) = s.step(OpenEvent::Failed(HamlibPttError::Hamlib(
        hamlibptt::hamlib::HamlibError::Control("rigctld returned error -1".to_string()),
    )));
    assert!(matches!(a, OpenAction::Finish(Err(HamlibPttError::Hamlib(_)))));
}

#[test]
fn open_rejects_invalid_configuration() {
    let mut c = config(ConfigControlMode::Rigctl);
    c.rigctl = None;
    let (s, _) = open(parameter());
    let (_, a) = s.step(OpenEvent::ConfigLoaded(c));
    assert!(matches!(a, OpenAction::Finish(Err(HamlibPttError::ConfigDataInvalid))));

    let mut c = config(ConfigControlMode::Rigctl);
    c.enable_fsk = Some(true);
    let (s, _) = open(parameter());
    let (s, a) = s.step(OpenEvent::ConfigLoaded(c));
    assert!(matches!(a, OpenAction::CreateCommander(_)));
    let (_, a) = s.step(OpenEvent::Succeeded);
    assert!(matches!(a, OpenAction::Finish(Err(HamlibPttError::ConfigDataInvalid))));
}

#[test]
fn open_succeeds_once_the_message_is_shown() {
    let (s, _) = open(parameter());
    let (s, _) = s.step(OpenEvent::ConfigLoaded(config(ConfigControlMode::Rigctld)));
    let (s, _) = s.step(OpenEvent::Succeeded);
    let (s, _) = s.step(OpenEvent::Succeeded);
    let (s, a) = s.step(OpenEvent::Succeeded);
    assert!(matches!(a, OpenAction::ShowInfo { .. }));
    let (_, a) = s.step(OpenEvent::Failed(HamlibPttError::Io("late".to_string())));
    assert!(matches!(a, OpenAction::Finish(Ok(()))));
}

#[test]
fn open_refuses_unexpected_events() {
    let (s, _) = open(parameter());
    let (_, a) = s.step(OpenEvent::Succeeded);
    assert!(matches!(a, OpenAction::Finish(Err(HamlibPttError::InvalidState))));
}

#[test]
fn close_runs_every_step_in_order() {
    let (s, a) = close();
    assert!(matches!(a, CloseAction::SendCloseCommands));
    let (s, a) = s.step(CloseEvent::Succeeded);
    assert!(matches!(a, CloseAction::CloseCommander));
    let (s, a) = s.step(CloseEvent::Succeeded);
    assert!(matches!(a, CloseAction::CloseFsk));
    let (_, a) = s.step(CloseEvent::Succeeded);
    assert!(matches!(a, CloseAction::Finish(Ok(()))));
}

#[test]
fn close_stops_when_sending_fails() {
    let (s, _) = close();
    let (_, a) = s.step(CloseEvent::Failed(HamlibPttError::Io("x".to_string())));
    assert!(matches!(a, CloseAction::Finish(Err(HamlibPttError::Io(_)))));
}

#[test]
fn one_shot_call_plans() {
    let c = config(ConfigControlMode::Rigctl);
    assert!(call(&c, None).unwrap().is_none());
    assert!(call(&c, Some(&strings(&[]))).unwrap().is_none());
    assert!(matches!(call(&c, Some(&strings(&["T", "1"]))), Ok(Some(RigCall::Rigctl(_)))));
    let c = config(ConfigControlMode::RigctldRetained);
    assert!(matches!(call(&c, Some(&strings(&["T", "1"]))), Ok(Some(RigCall::Rigctld(_)))));
    let mut c = config(ConfigControlMode::Rigctld);
    c.rigctld = None;
    assert!(matches!(
        call(&c, Some(&strings(&["T", "1"]))),
        Err(HamlibPttError::ConfigDataInvalid)
    ));
    assert!(call(&c, None).unwrap().is_none());
}

#[test]
fn one_shot_rigctl_outcome() {
    assert!(call_rigctl_outcome(true, "exit code: 0".to_string(), &vec![]).is_ok());
    match call_rigctl_outcome(false, "exit code: 2".to_string(), &b"oops".to_vec()) {
        Err(HamlibPttError::RigCtl(s, m)) => {
            assert_eq!(s, "exit code: 2");
            assert_eq!(m, "oops");
        }
        other => panic!("unexpected {other:?}"),
    }
}
