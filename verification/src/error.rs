//! What ends a run: the categories of failure, their messages and the exit
//! status of each.

use vstd::prelude::*;
use vstd::string::*;

use crate::consts::{launcher_name, launcher_name_of, Platform, PLAYERS_DIR};

verus! {

/// A setup that cannot be launched from.
#[derive(Debug, Clone, Copy, PartialEq, Eq, Structural)]
#[allow(clippy::enum_variant_names)]
#[non_exhaustive]
pub enum ValidationError {
    /// The installation has no directory of player definitions.
    NoPlayerDir,
    /// No usable player definition was found.
    NoPlayers,
    /// The launcher executable is not in the installation directory.
    NoArchipelago,
}

/// The text of a [`ValidationError`].
pub open spec fn validation_message_of(e: ValidationError, platform: Platform) -> Seq<char> {
    match e {
        ValidationError::NoPlayerDir => "Could not find a '"@ + PLAYERS_DIR@ + "' directory"@,
        ValidationError::NoPlayers =>
            "Found no players, please make sure at least one player is present"@,
        ValidationError::NoArchipelago => "Could not find the "@ + launcher_name_of(platform)
            + " file"@,
    }
}

impl ValidationError {
    /// Says what is wrong, naming the launcher as `platform` calls it.
    pub fn message(&self, platform: Platform) -> (r: String)
        ensures
            r@ == validation_message_of(*self, platform),
    {
        match self {
            ValidationError::NoPlayerDir => {
                let mut m: String = "Could not find a '".to_owned();
                m.append(PLAYERS_DIR);
                m.append("' directory");
                m
            },
            ValidationError::NoPlayers => {
                "Found no players, please make sure at least one player is present".to_owned()
            },
            ValidationError::NoArchipelago => {
                let mut m: String = "Could not find the ".to_owned();
                m.append(launcher_name(platform));
                m.append(" file");
                m
            },
        }
    }
}

/// Why a run ended early. A failure that came from outside is kept as its
/// message.
#[derive(Debug, Clone, PartialEq, Eq)]
pub enum Error {
    /// A file or the terminal could not be read or written.
    IO(String),
    /// A definition file could not be deserialized.
    Yaml(String),
    /// The user could not be asked.
    Prompt(String),
    /// The configuration file could not be deserialized.
    Toml(String),
    /// The setup is not one to launch from.
    Validation(ValidationError),
}

/// An [`Error`] with its message as a sequence of characters.
pub enum ErrorView {
    IO(Seq<char>),
    Yaml(Seq<char>),
    Prompt(Seq<char>),
    Toml(Seq<char>),
    Validation(ValidationError),
}

impl View for Error {
    type V = ErrorView;

    open spec fn view(&self) -> ErrorView {
        match self {
            Error::IO(cause) => ErrorView::IO(cause@),
            Error::Yaml(cause) => ErrorView::Yaml(cause@),
            Error::Prompt(cause) => ErrorView::Prompt(cause@),
            Error::Toml(cause) => ErrorView::Toml(cause@),
            Error::Validation(e) => ErrorView::Validation(*e),
        }
    }
}

/// The status with which the process ends on an error: one per category.
pub open spec fn exit_code_of(e: ErrorView) -> i32 {
    match e {
        ErrorView::IO(_) => 1,
        ErrorView::Yaml(_) => 2,
        ErrorView::Prompt(_) => 3,
        ErrorView::Toml(_) => 4,
        ErrorView::Validation(_) => 5,
    }
}

/// The text of an [`Error`]: its category, then its cause.
pub open spec fn error_message_of(e: ErrorView, platform: Platform) -> Seq<char> {
    match e {
        ErrorView::IO(cause) => "Failed an I/O call: "@ + cause,
        ErrorView::Yaml(cause) => "Failed to deserialize a .yaml file: "@ + cause,
        ErrorView::Prompt(cause) => "Failed to prompt user for value: "@ + cause,
        ErrorView::Toml(cause) => "Failed to deserialize the config file: "@ + cause,
        ErrorView::Validation(v) => "Something is wrong with your setup: "@
            + validation_message_of(v, platform),
    }
}

impl Error {
    /// The exit status for this error.
    pub fn exit_code(&self) -> (code: i32)
        ensures
            code == exit_code_of(self@),
            1 <= code <= 5,
    {
        match self {
            Error::IO(_) => 1,
            Error::Yaml(_) => 2,
            Error::Prompt(_) => 3,
            Error::Toml(_) => 4,
            Error::Validation(_) => 5,
        }
    }

    /// The message shown for this error.
    pub fn message(&self, platform: Platform) -> (r: String)
        ensures
            r@ == error_message_of(self@, platform),
    {
        match self {
            Error::IO(cause) => {
                let mut m: String = "Failed an I/O call: ".to_owned();
                m.append(cause.as_str());
                m
            },
            Error::Yaml(cause) => {
                let mut m: String = "Failed to deserialize a .yaml file: ".to_owned();
                m.append(cause.as_str());
                m
            },
            Error::Prompt(cause) => {
                let mut m: String = "Failed to prompt user for value: ".to_owned();
                m.append(cause.as_str());
                m
            },
            Error::Toml(cause) => {
                let mut m: String = "Failed to deserialize the config file: ".to_owned();
                m.append(cause.as_str());
                m
            },
            Error::Validation(v) => {
                let mut m: String = "Something is wrong with your setup: ".to_owned();
                let inner: String = v.message(platform);
                m.append(inner.as_str());
                m
            },
        }
    }
}

} // verus!
