//! What is told to the user: the warnings of a run and the lines they are
//! printed as.

use vstd::prelude::*;
use vstd::string::*;

verus! {

/// How serious a line is.
#[derive(Debug, Clone, Copy, PartialEq, Eq, Structural)]
pub enum Severity {
    Error,
    Warn,
    Info,
}

/// The marker that opens a line: the severity, underlined and coloured
/// where the terminal takes ANSI escapes, and a colon.
pub open spec fn marker_of(severity: Severity, ansi: bool) -> Seq<char> {
    match severity {
        Severity::Error => if ansi {
            "\x1b[31;4mERROR\x1b[0m: "@
        } else {
            "ERROR: "@
        },
        Severity::Warn => if ansi {
            "\x1b[33;4mWARN\x1b[0m: "@
        } else {
            "WARN: "@
        },
        Severity::Info => if ansi {
            "\x1b[34;4mINFO\x1b[0m: "@
        } else {
            "INFO: "@
        },
    }
}

/// The marker that opens a line of the given severity.
pub fn marker(severity: Severity, ansi: bool) -> (r: &'static str)
    ensures
        r@ == marker_of(severity, ansi),
{
    match severity {
        Severity::Error => if ansi {
            "\x1b[31;4mERROR\x1b[0m: "
        } else {
            "ERROR: "
        },
        Severity::Warn => if ansi {
            "\x1b[33;4mWARN\x1b[0m: "
        } else {
            "WARN: "
        },
        Severity::Info => if ansi {
            "\x1b[34;4mINFO\x1b[0m: "
        } else {
            "INFO: "
        },
    }
}

/// The line printed for a message: its marker, then the message.
pub fn log_line(severity: Severity, ansi: bool, message: &str) -> (line: String)
    ensures
        line@ == marker_of(severity, ansi) + message@,
{
    let mut line: String = marker(severity, ansi).to_owned();
    line.append(message);
    line
}

/// Something that went wrong for one item and did not end the run.
#[derive(Debug, Clone, PartialEq, Eq)]
pub enum Warning {
    /// A definition file could not be read.
    Unreadable { path: String, cause: String },
    /// A definition file is no well-formed YAML.
    Unparsable { path: String, cause: String },
    /// A definition file holds no string under `name`.
    MissingName { path: String },
    /// The user confirmed a selection of no players.
    EmptySelection,
    /// The launcher could not be started, or waited for, for one player.
    LaunchFailed { identity: String, cause: String },
}

/// A [`Warning`] with its strings as sequences of characters.
pub enum WarningView {
    Unreadable { path: Seq<char>, cause: Seq<char> },
    Unparsable { path: Seq<char>, cause: Seq<char> },
    MissingName { path: Seq<char> },
    EmptySelection,
    LaunchFailed { identity: Seq<char>, cause: Seq<char> },
}

impl View for Warning {
    type V = WarningView;

    open spec fn view(&self) -> WarningView {
        match self {
            Warning::Unreadable { path, cause } => WarningView::Unreadable {
                path: path@,
                cause: cause@,
            },
            Warning::Unparsable { path, cause } => WarningView::Unparsable {
                path: path@,
                cause: cause@,
            },
            Warning::MissingName { path } => WarningView::MissingName { path: path@ },
            Warning::EmptySelection => WarningView::EmptySelection,
            Warning::LaunchFailed { identity, cause } => WarningView::LaunchFailed {
                identity: identity@,
                cause: cause@,
            },
        }
    }
}

/// The text of a warning.
pub open spec fn warning_message_of(w: WarningView) -> Seq<char> {
    match w {
        WarningView::Unreadable { path, cause } => "Failed to read the file '"@ + path + "': "@
            + cause,
        WarningView::Unparsable { path, cause } => "Failed to parse the file '"@ + path + "': "@
            + cause,
        WarningView::MissingName { path } => "No 'name' string field in player file "@ + path,
        WarningView::EmptySelection =>
            "You need to select at least one player, please try again!"@,
        WarningView::LaunchFailed { identity, cause } => "Failed to run user '"@ + identity
            + "': "@ + cause,
    }
}

/// `head`, `subject`, `"': "` and `cause` in a row.
fn quoted(head: &str, subject: &str, cause: &str) -> (r: String)
    ensures
        r@ == head@ + subject@ + "': "@ + cause@,
{
    let mut m: String = head.to_owned();
    m.append(subject);
    m.append("': ");
    m.append(cause);
    m
}

impl Warning {
    /// The text of this warning, without a marker.
    pub fn message(&self) -> (r: String)
        ensures
            r@ == warning_message_of(self@),
    {
        match self {
            Warning::Unreadable { path, cause } => quoted(
                "Failed to read the file '",
                path.as_str(),
                cause.as_str(),
            ),
            Warning::Unparsable { path, cause } => quoted(
                "Failed to parse the file '",
                path.as_str(),
                cause.as_str(),
            ),
            Warning::MissingName { path } => {
                let mut m: String = "No 'name' string field in player file ".to_owned();
                m.append(path.as_str());
                m
            },
            Warning::EmptySelection => {
                "You need to select at least one player, please try again!".to_owned()
            },
            Warning::LaunchFailed { identity, cause } => quoted(
                "Failed to run user '",
                identity.as_str(),
                cause.as_str(),
            ),
        }
    }

    /// The line printed for this warning.
    pub fn line(&self, ansi: bool) -> (r: String)
        ensures
            r@ == marker_of(Severity::Warn, ansi) + warning_message_of(self@),
    {
        let m: String = self.message();
        log_line(Severity::Warn, ansi, m.as_str())
    }
}

/// The text that announces the launch for one player.
pub open spec fn running_message_of(identity: Seq<char>) -> Seq<char> {
    "Running user "@ + identity
}

/// The text that announces the launch for one player.
pub fn running_message(identity: &str) -> (r: String)
    ensures
        r@ == running_message_of(identity@),
{
    let mut m: String = "Running user ".to_owned();
    m.append(identity);
    m
}

} // verus!
