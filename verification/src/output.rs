//! Terminal output policy.
//!
//! Four channels leave the supervisor: its own log and info lines, which a
//! silent mode may suppress and a configurable color may tint, and the
//! child's stdout and stderr passthrough, which are never suppressed and
//! never colored.  Which channel emits what is decided here; the writes
//! themselves go through small trusted printers.

use std::io::Write;
use vstd::prelude::*;
use crate::text::{eq_ignore_case, spec_eq_ignore_case};

verus! {

/// Color of the supervisor's own messages.
#[derive(Debug, Clone, Copy, PartialEq, Eq, Structural)]
pub enum LogColor {
    Yellow,
    Red,
    Green,
    Blue,
    Cyan,
    Magenta,
    White,
    NoColor,
}

/// The color `s` names, if any (matched without regard to ASCII case).
pub open spec fn spec_color(s: Seq<char>) -> Option<LogColor> {
    if spec_eq_ignore_case(s, "yellow"@) {
        Some(LogColor::Yellow)
    } else if spec_eq_ignore_case(s, "red"@) {
        Some(LogColor::Red)
    } else if spec_eq_ignore_case(s, "green"@) {
        Some(LogColor::Green)
    } else if spec_eq_ignore_case(s, "blue"@) {
        Some(LogColor::Blue)
    } else if spec_eq_ignore_case(s, "cyan"@) {
        Some(LogColor::Cyan)
    } else if spec_eq_ignore_case(s, "magenta"@) {
        Some(LogColor::Magenta)
    } else if spec_eq_ignore_case(s, "white"@) {
        Some(LogColor::White)
    } else if spec_eq_ignore_case(s, "none"@) {
        Some(LogColor::NoColor)
    } else {
        None
    }
}

impl LogColor {
    /// The SGR foreground code of the color; none for uncolored output.
    pub open spec fn spec_ansi_code(self) -> Option<u8> {
        match self {
            LogColor::Yellow => Some(33u8),
            LogColor::Red => Some(31u8),
            LogColor::Green => Some(32u8),
            LogColor::Blue => Some(34u8),
            LogColor::Cyan => Some(36u8),
            LogColor::Magenta => Some(35u8),
            LogColor::White => Some(37u8),
            LogColor::NoColor => None,
        }
    }

    /// Parse a color name given on the command line.  Succeeds exactly on
    /// the supported names; anything else is handed back for the caller's
    /// diagnostic.
    pub fn from_str(s: &str) -> (r: Result<LogColor, String>)
        ensures
            match r {
                Ok(c) => spec_color(s@) == Some(c),
                Err(e) => spec_color(s@) is None && e@ == s@,
            },
    {
        if eq_ignore_case(s, "yellow") {
            Ok(LogColor::Yellow)
        } else if eq_ignore_case(s, "red") {
            Ok(LogColor::Red)
        } else if eq_ignore_case(s, "green") {
            Ok(LogColor::Green)
        } else if eq_ignore_case(s, "blue") {
            Ok(LogColor::Blue)
        } else if eq_ignore_case(s, "cyan") {
            Ok(LogColor::Cyan)
        } else if eq_ignore_case(s, "magenta") {
            Ok(LogColor::Magenta)
        } else if eq_ignore_case(s, "white") {
            Ok(LogColor::White)
        } else if eq_ignore_case(s, "none") {
            Ok(LogColor::NoColor)
        } else {
            Err(s.to_owned())
        }
    }

    /// The SGR foreground code of the color; none for uncolored output.
    pub fn ansi_code(&self) -> (r: Option<u8>)
        ensures
            r == self.spec_ansi_code(),
    {
        match self {
            LogColor::Yellow => Some(33),
            LogColor::Red => Some(31),
            LogColor::Green => Some(32),
            LogColor::Blue => Some(34),
            LogColor::Cyan => Some(36),
            LogColor::Magenta => Some(35),
            LogColor::White => Some(37),
            LogColor::NoColor => None,
        }
    }
}

/// Relies on std::io::Stdout's Write impl: prints the line, a carriage
/// return (so raw terminal mode keeps columns straight) and a newline.
#[verifier::external_body]
pub fn print_line(msg: &str) {
    let _ = writeln!(std::io::stdout(), "{}\r", msg);
    let _ = std::io::stdout().flush();
}

/// Relies on std::io::Stderr's Write impl: prints the line, a carriage
/// return and a newline to stderr.
#[verifier::external_body]
pub fn eprint_line(msg: &str) {
    let _ = writeln!(std::io::stderr(), "{}\r", msg);
    let _ = std::io::stderr().flush();
}

/// Relies on std::io::Stdout's Write impl: prints the line to stdout
/// between an SGR foreground-color sequence for `code` and a reset.
#[verifier::external_body]
pub fn print_line_colored(msg: &str, code: u8) {
    let _ = writeln!(std::io::stdout(), "\x1b[{}m{}\x1b[0m\r", code, msg);
    let _ = std::io::stdout().flush();
}

/// Relies on std::io::Stderr's Write impl: prints the line to stderr
/// between an SGR foreground-color sequence for `code` and a reset.
#[verifier::external_body]
pub fn eprint_line_colored(msg: &str, code: u8) {
    let _ = writeln!(std::io::stderr(), "\x1b[{}m{}\x1b[0m\r", code, msg);
    let _ = std::io::stderr().flush();
}

/// Output policy: the colors of the supervisor's two channels and whether
/// silent mode suppresses them.  The child passthrough channels are exempt
/// from both.
#[derive(Debug, Clone, Copy, PartialEq, Eq, Structural)]
pub struct Output {
    pub log_color: LogColor,
    pub info_color: LogColor,
    pub silent: bool,
}

impl Output {
    pub fn new(log_color: LogColor, info_color: LogColor, silent: bool) -> (o: Output)
        ensures
            o == (Output { log_color, info_color, silent }),
    {
        Output { log_color, info_color, silent }
    }

    /// Supervisor log line to stdout, in the log color; suppressed when
    /// silent.
    pub fn log(&self, msg: &str) {
        if self.silent {
            return ;
        }
        match self.log_color.ansi_code() {
            Some(code) => print_line_colored(msg, code),
            None => print_line(msg),
        }
    }

    /// Supervisor log line to stderr, in the log color; suppressed when
    /// silent.
    pub fn elog(&self, msg: &str) {
        if self.silent {
            return ;
        }
        match self.log_color.ansi_code() {
            Some(code) => eprint_line_colored(msg, code),
            None => eprint_line(msg),
        }
    }

    /// Informational line to stdout, in the info color; suppressed when
    /// silent.
    pub fn info(&self, msg: &str) {
        if self.silent {
            return ;
        }
        match self.info_color.ansi_code() {
            Some(code) => print_line_colored(msg, code),
            None => print_line(msg),
        }
    }

    /// Informational line to stderr, in the info color; suppressed when
    /// silent.
    pub fn einfo(&self, msg: &str) {
        if self.silent {
            return ;
        }
        match self.info_color.ansi_code() {
            Some(code) => eprint_line_colored(msg, code),
            None => eprint_line(msg),
        }
    }

    /// Child stdout passthrough: never suppressed, never colored.
    pub fn forward_stdout(&self, line: &str) {
        print_line(line);
    }

    /// Child stderr passthrough: never suppressed, never colored.
    pub fn forward_stderr(&self, line: &str) {
        eprint_line(line);
    }
}

} // verus!
