use hamlibptt::common::config::{ConfigRigctl, ConfigRigctld};
use hamlibptt::common::error::HamlibPttError;
use hamlibptt::hamlib::command_line;
use hamlibptt::hamlib::rigctl::{quit_line, rigctl_argument_list, run_outcome, run_result, RigctlCommander};
use hamlibptt::hamlib::rigctld::{
    check_report, is_report_line, reply_line, report_code_text, RigctldCommander,
};
use hamlibptt::hamlib::HamlibError;
use hamlibptt::text::{decimal_text, join_with_spaces, split_after_space, starts_with, trim_text};

fn strings(v: &[&str]) -> Vec<String> {
    v.iter().map(|s| s.to_string()).collect()
}

#[test]
fn decimal_text_renders_numbers() {
    assert_eq!(decimal_text(0), "0");
    assert_eq!(decimal_text(7), "7");
    assert_eq!(decimal_text(10), "10");
    assert_eq!(decimal_text(3073), "3073");
    assert_eq!(decimal_text(usize::MAX), usize::MAX.to_string());
}

#[test]
fn join_with_spaces_matches_join() {
    assert_eq!(join_with_spaces(&strings(&[])), "");
    assert_eq!(join_with_spaces(&strings(&["T"])), "T");
    assert_eq!(join_with_spaces(&strings(&["T", "1", "M USB 2400"])), "T 1 M USB 2400");
}

#[test]
fn trim_text_matches_trim() {
    for s in ["", "   ", "RPRT 0\n", "\t RPRT -1 \r\n", "a b", "\u{3000}x\u{85}", " \u{a0}"] {
        assert_eq!(trim_text(s), s.trim());
    }
}

#[test]
fn starts_with_matches_std() {
    assert!(starts_with("RPRT 0", "RPRT"));
    assert!(starts_with("RPRT", "RPRT"));
    assert!(!starts_with("RPR", "RPRT"));
    assert!(!starts_with(" RPRT 0", "RPRT"));
    assert!(starts_with("anything", ""));
}

#[test]
fn split_after_space_matches_split_once() {
    for s in ["RPRT 0", "RPRT", "", " x", "a b c", "a "] {
        assert_eq!(split_after_space(s), s.split_once(' ').map(|(_, c)| c));
    }
}

#[test]
fn command_line_joins_and_ends_the_line() {
    assert_eq!(command_line(&strings(&["T", "1"])), "T 1\n");
    assert_eq!(command_line(&strings(&[])), "\n");
    assert_eq!(command_line(&strings(&["F 14070000"])), "F 14070000\n");
}

#[test]
fn quit_line_is_q() {
    assert_eq!(quit_line(), "q\n");
}

fn rigctl_config() -> ConfigRigctl {
    ConfigRigctl {
        rigctl_path: "C:\\hamlib\\rigctl.exe".to_string(),
        model_id: 3073,
        device: "COM3".to_string(),
    }
}

#[test]
fn rigctl_arguments_name_model_device_then_commands() {
    let args = rigctl_argument_list(&rigctl_config(), &strings(&["T", "1"]));
    assert_eq!(args, strings(&["-m", "3073", "-r", "COM3", "T", "1"]));
    let commander = RigctlCommander::new(&rigctl_config());
    assert_eq!(commander.config.model_id, 3073);
    assert_eq!(commander.arguments(&strings(&[])), strings(&["-m", "3073", "-r", "COM3"]));
}

#[test]
fn rigctl_run_outcome_reads_error_output() {
    assert!(run_outcome(true, &b"ignored".to_vec()).is_ok());
    match run_outcome(false, &b"Unknown command".to_vec()) {
        Err(HamlibError::Control(m)) => assert_eq!(m, "Unknown command"),
        other => panic!("unexpected {other:?}"),
    }
    // Invalid UTF-8 is replaced, not passed through.
    match run_outcome(false, &vec![0x66, 0x6f, 0xff]) {
        Err(HamlibError::Control(m)) => assert_eq!(m, "fo\u{FFFD}"),
        other => panic!("unexpected {other:?}"),
    }
    assert!(run_result(true, "x".to_string()).is_ok());
    assert!(matches!(run_result(false, "x".to_string()), Err(HamlibError::Control(m)) if m == "x"));
}

#[test]
fn rigctld_report_lines() {
    assert!(is_report_line("RPRT 0\n"));
    assert!(is_report_line("RPRT -11\n"));
    assert!(!is_report_line("Frequency: 14070000\n"));
    assert!(!is_report_line(" RPRT 0\n"));
    assert_eq!(report_code_text("RPRT 0\n"), "0");
    assert_eq!(report_code_text("RPRT\n"), "(cannot decode)");
    assert_eq!(report_code_text("RPRT -1 extra\n"), "-1 extra");
}

#[test]
fn rigctld_report_outcome() {
    assert!(check_report("RPRT 0\n").is_ok());
    assert!(check_report("  RPRT 0  \r\n").is_ok());
    match check_report("RPRT -1\n") {
        Err(HamlibError::Control(m)) => assert_eq!(m, "rigctld returned error -1"),
        other => panic!("unexpected {other:?}"),
    }
    match check_report("RPRT\n") {
        Err(HamlibError::Control(m)) => assert_eq!(m, "rigctld returned error (cannot decode)"),
        other => panic!("unexpected {other:?}"),
    }
    match check_report("RPRT 00\n") {
        Err(HamlibError::Control(m)) => assert_eq!(m, "rigctld returned error 00"),
        other => panic!("unexpected {other:?}"),
    }
}

#[test]
fn rigctld_commander_keeps_its_address() {
    let config = ConfigRigctld { address: "127.0.0.1:4532".to_string() };
    let commander = RigctldCommander::new(&config);
    assert_eq!(commander.config.address, "127.0.0.1:4532");
}

#[test]
fn error_messages() {
    assert_eq!(HamlibError::Io("broken pipe".to_string()).message(), "IO error: broken pipe");
    assert_eq!(HamlibError::Control("no".to_string()).message(), "control error: no");
    assert_eq!(HamlibPttError::InvalidState.message(), "invariant broken");
    assert_eq!(HamlibPttError::DllPath.message(), "failed to get DLL directory");
    assert_eq!(HamlibPttError::ConfigDataInvalid.message(), "invalid config data");
    assert_eq!(HamlibPttError::Io("x".to_string()).message(), "IO error: x");
    assert_eq!(HamlibPttError::Windows("w".to_string()).message(), "error in Windows API: w");
    assert_eq!(HamlibPttError::ConfigSyntax("c".to_string()).message(), "config error: c");
    assert_eq!(
        HamlibPttError::RigCtl("exit code: 1".to_string(), "bad".to_string()).message(),
        "rigctl failed with status exit code: 1: bad"
    );
    assert_eq!(
        HamlibPttError::Hamlib(HamlibError::Control("z".to_string())).message(),
        "control error: z"
    );
    assert_eq!(HamlibPttError::SerialPort("s".to_string()).message(), "serial port error: s");
    assert_eq!(hamlibptt::error::HamlibPttError::DllPath.message(), "failed to get DLL directory");
    assert_eq!(
        hamlibptt::error::HamlibPttError::Windows("e".to_string()).message(),
        "error in Windows API: e"
    );
}

#[test]
fn dll_detach_succeeds() {
    assert!(hamlibptt::common::dll::on_dll_detach().is_ok());
}

#[test]
fn dll_directory_needs_a_parent() {
    assert_eq!(hamlibptt::common::dll::dll_directory(Some(7)).unwrap(), 7);
    assert!(matches!(
        hamlibptt::common::dll::dll_directory::<u32>(None),
        Err(HamlibPttError::DllPath)
    ));
}

#[test]
fn reply_lines_decide_at_the_report() {
    assert!(reply_line("Frequency: 14070000\n").is_none());
    assert!(matches!(reply_line("RPRT 0\n"), Some(Ok(()))));
    match reply_line("RPRT -9\n") {
        Some(Err(HamlibError::Control(m))) => assert_eq!(m, "rigctld returned error -9"),
        other => panic!("unexpected {other:?}"),
    }
}
