//! Command-line configuration.
//!
//! Flag parsing itself is the runtime's work; the core receives the raw
//! values in this plain struct and assembles the verified components from
//! them, validating the two color names and the restart-signal name.

use vstd::prelude::*;
use crate::output::{spec_color, LogColor, Output};
use crate::process::ProcessManager;
use crate::signals::{spec_restart_sig, SignalHandler};
use crate::supervisor::Supervisor;

verus! {

/// The command line, already parsed into plain values.
#[derive(Debug)]
pub struct Cli {
    /// Stop the supervisor when the child process exits.
    pub stop_on_child_exit: bool,
    /// Name of the signal that restarts the child.
    pub restart_signal: String,
    /// Hotkey character for a manual restart.
    pub restart_hotkey: char,
    /// Color name for supervisor log messages.
    pub log_color: String,
    /// Color name for informational messages.
    pub info_color: String,
    /// Suppress supervisor output; child output stays visible.
    pub silent: bool,
    /// Restart debounce interval in milliseconds; zero disables it.
    pub restart_debounce_ms: u64,
    /// Command to run.
    pub command: String,
    /// Arguments to pass to the command.
    pub args: Vec<String>,
}

/// A configuration value the core itself validates was rejected.  Each of
/// these is fatal before the loop starts.
#[derive(Debug, Clone, Copy, PartialEq, Eq, Structural)]
pub enum ConfigError {
    /// The log color name is not one of the supported colors.
    InvalidLogColor,
    /// The info color name is not one of the supported colors.
    InvalidInfoColor,
    /// The restart-signal name is not one of the supported signals.
    UnsupportedSignal,
}

impl Cli {
    /// Every name the core validates itself is well-formed.
    pub open spec fn spec_valid(self) -> bool {
        &&& spec_color(self.log_color@) is Some
        &&& spec_color(self.info_color@) is Some
        &&& spec_restart_sig(self.restart_signal@) is Some
    }

    /// Assemble the verified components: the output policy and a
    /// supervisor in `Starting` around a fresh manager.  Fails exactly
    /// when a color name or the restart-signal name is unsupported — the
    /// log color is checked first, then the info color, then the signal.
    pub fn build(self) -> (r: Result<(Output, Supervisor), ConfigError>)
        ensures
            ({
                let lc = spec_color(self.log_color@);
                let ic = spec_color(self.info_color@);
                let rs = spec_restart_sig(self.restart_signal@);
                match r {
                    Ok(pair) => self.spec_valid() && pair.0 == (Output {
                        log_color: lc->0,
                        info_color: ic->0,
                        silent: self.silent,
                    }) && pair.1 == (Supervisor {
                        process_manager: ProcessManager {
                            command: self.command,
                            args: self.args,
                            child: None,
                        },
                        signal_handler: SignalHandler { restart_signal: rs->0 },
                        stop_on_child_exit: self.stop_on_child_exit,
                        restart_hotkey: self.restart_hotkey,
                        debounce: crate::debounce::RestartGate {
                            debounce_ms: self.restart_debounce_ms,
                            last_restart_ms: None,
                        },
                        state: crate::supervisor::RunState::Starting,
                        last_exit: None,
                    }),
                    Err(ConfigError::InvalidLogColor) => lc is None,
                    Err(ConfigError::InvalidInfoColor) => lc is Some && ic is None,
                    Err(ConfigError::UnsupportedSignal) => lc is Some && ic is Some
                        && rs is None,
                }
            }),
    {
        let log_color = match LogColor::from_str(self.log_color.as_str()) {
            Ok(c) => c,
            Err(_) => {
                return Err(ConfigError::InvalidLogColor);
            },
        };
        let info_color = match LogColor::from_str(self.info_color.as_str()) {
            Ok(c) => c,
            Err(_) => {
                return Err(ConfigError::InvalidInfoColor);
            },
        };
        let signal_handler = match SignalHandler::new(self.restart_signal.as_str()) {
            Ok(h) => h,
            Err(_) => {
                return Err(ConfigError::UnsupportedSignal);
            },
        };
        let output = Output::new(log_color, info_color, self.silent);
        let process_manager = ProcessManager::new(self.command, self.args);
        let supervisor = Supervisor::new(
            process_manager,
            signal_handler,
            self.stop_on_child_exit,
            self.restart_hotkey,
            self.restart_debounce_ms,
        );
        Ok((output, supervisor))
    }
}

} // verus!
