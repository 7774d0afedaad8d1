//! The settings of a run: what the configuration file gives, what is
//! still to be asked for, and the settings once they are complete.

use vstd::prelude::*;
use vstd::string::*;

use crate::consts::DEFAULT_HOST;
use crate::launch::{SharedLaunchConfig, SharedLaunchConfigView};
use crate::model::{opt_view, views};
use crate::port::Port;

verus! {

/// The complete settings of a run.
#[derive(Debug, Clone, PartialEq, Eq)]
pub struct Args {
    /// The installation directory.
    pub location: String,
    /// The server's port.
    pub port: Port,
    /// The server to connect to.
    pub host: String,
    /// The identities of the players to launch.
    pub players: Vec<String>,
}

/// [`Args`] with its strings as sequences of characters.
pub struct ArgsView {
    pub location: Seq<char>,
    pub port: u16,
    pub host: Seq<char>,
    pub players: Seq<Seq<char>>,
}

impl View for Args {
    type V = ArgsView;

    open spec fn view(&self) -> ArgsView {
        ArgsView {
            location: self.location@,
            port: self.port@,
            host: self.host@,
            players: views(self.players@),
        }
    }
}

/// The settings as far as they are known: from the configuration file at
/// first, then with what the user was asked for.
#[derive(Debug, Clone, PartialEq, Eq)]
pub struct ConfigArgs {
    pub location: Option<String>,
    pub port: Option<Port>,
    pub host: Option<String>,
}

/// [`ConfigArgs`] with its strings as sequences of characters.
pub struct ConfigArgsView {
    pub location: Option<Seq<char>>,
    pub port: Option<u16>,
    pub host: Option<Seq<char>>,
}

impl View for ConfigArgs {
    type V = ConfigArgsView;

    open spec fn view(&self) -> ConfigArgsView {
        ConfigArgsView {
            location: opt_view(self.location),
            port: opt_view(self.port),
            host: opt_view(self.host),
        }
    }
}

impl Default for ConfigArgs {
    /// The settings without a configuration file: nothing is known.
    fn default() -> (config: ConfigArgs)
        ensures
            config.location is None,
            config.port is None,
            config.host is None,
    {
        ConfigArgs { location: None, port: None, host: None }
    }
}

/// What is to be done next to complete the settings.
#[derive(Debug, Clone, Copy, PartialEq, Eq, Structural)]
pub enum SetupStep {
    /// Ask the user for the installation directory.
    AskLocation,
    /// Ask the user for the port.
    AskPort,
    /// Discover the players of the installation and settle the selection.
    FindPlayers,
}

/// The next step on settings known so far: the location comes first, then
/// the port, and the players once both are known. The host is never asked
/// for.
pub open spec fn next_step_of(config: ConfigArgsView) -> SetupStep {
    if config.location is None {
        SetupStep::AskLocation
    } else if config.port is None {
        SetupStep::AskPort
    } else {
        SetupStep::FindPlayers
    }
}

/// The host to connect to: the configured one, or the default.
pub open spec fn host_of(host: Option<Seq<char>>) -> Seq<char> {
    match host {
        Some(h) => h,
        None => DEFAULT_HOST@,
    }
}

/// The complete settings from what is known and the selected players:
/// there are none while the location or the port is unknown, or without a
/// player.
pub open spec fn assembled(config: ConfigArgsView, players: Seq<Seq<char>>) -> Option<ArgsView> {
    if config.location is Some && config.port is Some && players.len() > 0 {
        Some(
            ArgsView {
                location: config.location->0,
                port: config.port->0,
                host: host_of(config.host),
                players,
            },
        )
    } else {
        None
    }
}

impl ConfigArgs {
    /// Tells what is to be done next to complete the settings.
    pub fn next_step(&self) -> (step: SetupStep)
        ensures
            step == next_step_of(self@),
    {
        if self.location.is_none() {
            SetupStep::AskLocation
        } else if self.port.is_none() {
            SetupStep::AskPort
        } else {
            SetupStep::FindPlayers
        }
    }
}

impl Args {
    /// Whether the settings can be launched from: at least one player is
    /// selected.
    pub open spec fn wf(&self) -> bool {
        self.players.len() > 0
    }

    /// Completes the settings with the selected players.
    pub fn assemble(config: ConfigArgs, players: Vec<String>) -> (r: Option<Args>)
        ensures
            opt_view(r) == assembled(config@, views(players@)),
            r matches Some(args) ==> args.wf(),
    {
        if players.len() == 0 {
            return None;
        }
        let ConfigArgs { location, port, host } = config;
        match (location, port) {
            (Some(location), Some(port)) => {
                let host: String = match host {
                    Some(h) => h,
                    None => DEFAULT_HOST.to_owned(),
                };
                Some(Args { location, port, host, players })
            },
            _ => None,
        }
    }

    /// What the launches of this run share, with the launcher executable
    /// at `executable`.
    pub fn launch_config(&self, executable: String) -> (config: SharedLaunchConfig)
        ensures
            config@ == (SharedLaunchConfigView {
                directory: self@.location,
                executable: executable@,
                host: self@.host,
                port: self@.port,
            }),
    {
        SharedLaunchConfig {
            directory: self.location.clone(),
            executable,
            host: self.host.clone(),
            port: self.port,
        }
    }
}

} // verus!
