//! Display formatting: the pure text-building parts of the display layer.
//! The printing itself is not done here; these functions produce exactly the
//! strings the terminal front end writes out.

use vstd::prelude::*;
use crate::commands::help::spec_format_with_alias;
use crate::error::{spec_message, spec_severity, CliError, ErrorSeverity};
use crate::text::{eq_ignore_case, str_eq_ignore_case};

verus! {

/// A command name with its leading letter set in bold, for the fixed set of
/// known menu commands, matched without regard to ASCII case.
pub open spec fn spec_format_name(colored: bool, name: Seq<char>) -> Seq<char> {
    if !colored {
        name
    } else if eq_ignore_case(name, "file"@) {
        "\u{1b}[1mF\u{1b}[0mile"@
    } else if eq_ignore_case(name, "edit"@) {
        "\u{1b}[1mE\u{1b}[0mdit"@
    } else if eq_ignore_case(name, "view"@) {
        "\u{1b}[1mV\u{1b}[0miew"@
    } else if eq_ignore_case(name, "help"@) {
        "\u{1b}[1mH\u{1b}[0melp"@
    } else if eq_ignore_case(name, "quit"@) {
        "\u{1b}[1mQ\u{1b}[0muit"@
    } else if eq_ignore_case(name, "info"@) {
        "\u{1b}[1mI\u{1b}[0mnfo"@
    } else if eq_ignore_case(name, "load"@) {
        "\u{1b}[1mL\u{1b}[0moad"@
    } else if eq_ignore_case(name, "save"@) {
        "\u{1b}[1mS\u{1b}[0mave"@
    } else if eq_ignore_case(name, "exit"@) {
        "\u{1b}[1mE\u{1b}[0mxit"@
    } else if eq_ignore_case(name, "axis"@) {
        "\u{1b}[1mA\u{1b}[0mxis"@
    } else if eq_ignore_case(name, "show"@) {
        "\u{1b}[1mS\u{1b}[0mhow"@
    } else if eq_ignore_case(name, "vers"@) {
        "\u{1b}[1mV\u{1b}[0mers"@
    } else {
        name
    }
}

/// The icon shown before an error: an emoji when unicode output is enabled,
/// a plain marker otherwise.
pub open spec fn spec_error_icon(unicode: bool, sev: ErrorSeverity) -> Seq<char> {
    if unicode {
        match sev {
            ErrorSeverity::Warning => "\u{26a0}\u{fe0f}"@,
            ErrorSeverity::Error => "\u{274c}"@,
            ErrorSeverity::Critical => "\u{1f4a5}"@,
        }
    } else {
        match sev {
            ErrorSeverity::Warning => "!"@,
            ErrorSeverity::Error => "X"@,
            ErrorSeverity::Critical => "!!"@,
        }
    }
}

/// The ANSI color introducing an error line, by severity.
pub open spec fn spec_error_color(sev: ErrorSeverity) -> Seq<char> {
    match sev {
        ErrorSeverity::Warning => "\u{1b}[1;33m"@,
        ErrorSeverity::Error => "\u{1b}[1;31m"@,
        ErrorSeverity::Critical => "\u{1b}[1;35m"@,
    }
}

/// The full line displayed for an error: color, icon, message, reset.
pub open spec fn spec_error_line(colored: bool, unicode: bool, e: crate::error::ErrorModel) -> Seq<
    char,
> {
    let color = if colored {
        spec_error_color(spec_severity(e))
    } else {
        Seq::<char>::empty()
    };
    let reset = if colored {
        "\u{1b}[0m"@
    } else {
        Seq::<char>::empty()
    };
    color + spec_error_icon(unicode, spec_severity(e)) + " "@ + spec_message(e) + reset
}

/// Display manager holding the output formatting options.
#[derive(Debug)]
pub struct DisplayManager {
    /// Whether to use colored output
    pub colored: bool,
    /// Whether to use unicode symbols
    pub unicode: bool,
}

impl DisplayManager {
    /// Create a new display manager with default settings.
    pub fn new() -> (r: Self)
        ensures
            r.colored,
            r.unicode,
    {
        Self { colored: true, unicode: true }
    }

    /// Create a display manager with specific settings.
    pub fn with_options(colored: bool, unicode: bool) -> (r: Self)
        ensures
            r.colored == colored,
            r.unicode == unicode,
    {
        Self { colored, unicode }
    }

    /// Format a command name with a bold alias character, when coloring is
    /// enabled.
    pub fn format_command_with_alias(&self, name: &str, alias: Option<&str>) -> (r: String)
        ensures
            self.colored ==> r@ == spec_format_with_alias(name@, match alias {
                Some(a) => Some(a@),
                None => None,
            }),
            !self.colored ==> r@ == name@,
    {
        if self.colored {
            crate::commands::help::format_command_with_alias(name, alias)
        } else {
            let mut s = String::new();
            s.append(name);
            s
        }
    }

    /// Format a command name with its leading letter in bold, for the fixed
    /// set of known commands.
    pub fn format_command_name(&self, name: &str) -> (r: String)
        ensures
            r@ == spec_format_name(self.colored, name@),
    {
        let mut s = String::new();
        if !self.colored {
            s.append(name);
        } else if str_eq_ignore_case(name, "file") {
            s.append("\u{1b}[1mF\u{1b}[0mile");
        } else if str_eq_ignore_case(name, "edit") {
            s.append("\u{1b}[1mE\u{1b}[0mdit");
        } else if str_eq_ignore_case(name, "view") {
            s.append("\u{1b}[1mV\u{1b}[0miew");
        } else if str_eq_ignore_case(name, "help") {
            s.append("\u{1b}[1mH\u{1b}[0melp");
        } else if str_eq_ignore_case(name, "quit") {
            s.append("\u{1b}[1mQ\u{1b}[0muit");
        } else if str_eq_ignore_case(name, "info") {
            s.append("\u{1b}[1mI\u{1b}[0mnfo");
        } else if str_eq_ignore_case(name, "load") {
            s.append("\u{1b}[1mL\u{1b}[0moad");
        } else if str_eq_ignore_case(name, "save") {
            s.append("\u{1b}[1mS\u{1b}[0mave");
        } else if str_eq_ignore_case(name, "exit") {
            s.append("\u{1b}[1mE\u{1b}[0mxit");
        } else if str_eq_ignore_case(name, "axis") {
            s.append("\u{1b}[1mA\u{1b}[0mxis");
        } else if str_eq_ignore_case(name, "show") {
            s.append("\u{1b}[1mS\u{1b}[0mhow");
        } else if str_eq_ignore_case(name, "vers") {
            s.append("\u{1b}[1mV\u{1b}[0mers");
        } else {
            s.append(name);
        }
        s
    }

    /// The full line displayed for an error: color and icon by severity and
    /// options, then the error's message, then the color reset.
    pub fn format_error(&self, error: &CliError) -> (r: String)
        ensures
            r@ == spec_error_line(self.colored, self.unicode, error@),
    {
        let sev = error.severity();
        let mut s = String::new();
        if self.colored {
            match sev {
                ErrorSeverity::Warning => s.append("\u{1b}[1;33m"),
                ErrorSeverity::Error => s.append("\u{1b}[1;31m"),
                ErrorSeverity::Critical => s.append("\u{1b}[1;35m"),
            }
        }
        if self.unicode {
            s.append(error.icon());
        } else {
            match sev {
                ErrorSeverity::Warning => s.append("!"),
                ErrorSeverity::Error => s.append("X"),
                ErrorSeverity::Critical => s.append("!!"),
            }
        }
        s.append(" ");
        let msg = error.message();
        s.append(msg.as_str());
        if self.colored {
            s.append("\u{1b}[0m");
        }
        proof {
            assert(s@ =~= spec_error_line(self.colored, self.unicode, error@));
        }
        s
    }
}

impl Default for DisplayManager {
    fn default() -> (r: Self)
        ensures
            r.colored,
            r.unicode,
    {
        Self::new()
    }
}

/// Terminal utilities for low-level terminal queries.
#[derive(Debug)]
pub struct TerminalUtils;

impl TerminalUtils {
    /// Get the terminal width used for layout.
    pub fn get_width() -> (r: usize)
        ensures
            r == 80,
    {
        80
    }

    /// Get the terminal height used for layout.
    pub fn get_height() -> (r: usize)
        ensures
            r == 24,
    {
        24
    }
}

} // verus!
