use supi::cli::{Cli, ConfigError};
use supi::hotkey::{classify_key, KeyAction, KeyModifiers};
use supi::output::LogColor;
use supi::signals::Sig;
use supi::supervisor::RunState;

fn cli() -> Cli {
    Cli {
        stop_on_child_exit: false,
        restart_signal: String::from("SIGUSR1"),
        restart_hotkey: 'r',
        log_color: String::from("yellow"),
        info_color: String::from("green"),
        silent: false,
        restart_debounce_ms: 1000,
        command: String::from("sleep"),
        args: vec![String::from("60")],
    }
}

#[test]
fn a_valid_command_line_builds_the_components() {
    let (output, sup) = cli().build().unwrap();
    assert_eq!(output.log_color, LogColor::Yellow);
    assert_eq!(output.info_color, LogColor::Green);
    assert!(!output.silent);
    assert_eq!(sup.state, RunState::Starting);
    assert_eq!(sup.signal_handler.restart_signal, Sig::Usr1);
    assert_eq!(sup.restart_hotkey, 'r');
    assert_eq!(sup.debounce.debounce_ms, 1000);
    assert_eq!(sup.process_manager.command, "sleep");
    assert_eq!(sup.process_manager.args, vec![String::from("60")]);
    assert!(!sup.process_manager.is_running());
}

#[test]
fn an_unsupported_log_color_is_rejected_first() {
    let mut c = cli();
    c.log_color = String::from("mauve");
    c.info_color = String::from("mauve");
    c.restart_signal = String::from("SIGKILL");
    assert_eq!(c.build().unwrap_err(), ConfigError::InvalidLogColor);
}

#[test]
fn an_unsupported_info_color_is_rejected() {
    let mut c = cli();
    c.info_color = String::from("mauve");
    assert_eq!(c.build().unwrap_err(), ConfigError::InvalidInfoColor);
}

#[test]
fn an_unsupported_restart_signal_is_rejected() {
    let mut c = cli();
    c.restart_signal = String::from("SIGSTOP");
    assert_eq!(c.build().unwrap_err(), ConfigError::UnsupportedSignal);
}

#[test]
fn the_hotkey_fires_only_unmodified() {
    assert_eq!(classify_key('r', KeyModifiers::Plain, 'r'), KeyAction::Emit);
    assert_eq!(classify_key('r', KeyModifiers::Control, 'r'), KeyAction::Ignore);
    assert_eq!(classify_key('r', KeyModifiers::Other, 'r'), KeyAction::Ignore);
    assert_eq!(classify_key('x', KeyModifiers::Plain, 'r'), KeyAction::Ignore);
}

#[test]
fn a_custom_hotkey_is_honored() {
    assert_eq!(classify_key('x', KeyModifiers::Plain, 'x'), KeyAction::Emit);
    assert_eq!(classify_key('r', KeyModifiers::Plain, 'x'), KeyAction::Ignore);
}

#[test]
fn ctrl_c_becomes_a_self_interrupt() {
    assert_eq!(classify_key('c', KeyModifiers::Control, 'r'), KeyAction::Interrupt);
    // Even when 'c' is the hotkey, the unmodified press restarts and the
    // control-modified press interrupts.
    assert_eq!(classify_key('c', KeyModifiers::Plain, 'c'), KeyAction::Emit);
    assert_eq!(classify_key('c', KeyModifiers::Control, 'c'), KeyAction::Interrupt);
}
