//! Names and literals that the launcher is built around.

use vstd::prelude::*;

verus! {

/// The first argument handed to the launcher: the component to start.
pub const TRACKER_ARG: &'static str = "Universal Tracker";

/// The prompt for the players to launch.
pub const PLAYERS_PROMPT: &'static str = "Choose players (select with space, confirm with enter)";

/// The prompt for the port.
pub const PORT_PROMPT: &'static str = "Select a port";

/// The prompt for the installation directory.
pub const LOC_PROMPT: &'static str = "Archipelago location (leave empty for current directory)";

/// The configuration file, relative to the working directory.
pub const CONFIG_FILE: &'static str = "config.toml";

/// The host used where none is configured.
pub const DEFAULT_HOST: &'static str = "archipelago.gg";

/// The extension of a player definition file.
pub const YAML_EXT: &'static str = "yaml";

/// The directory of the definition files, inside the installation.
pub const PLAYERS_DIR: &'static str = "Players";

/// The systems on which the launcher executable has a known name.
#[derive(Debug, Clone, Copy, PartialEq, Eq, Structural)]
pub enum Platform {
    Windows,
    Linux,
}

/// The file name of the launcher executable on a platform.
pub open spec fn launcher_name_of(platform: Platform) -> Seq<char> {
    match platform {
        Platform::Windows => "ArchipelagoLauncher.exe"@,
        Platform::Linux => "ArchipelagoLauncher"@,
    }
}

/// The file name of the launcher executable, directly under the
/// installation directory.
pub fn launcher_name(platform: Platform) -> (r: &'static str)
    ensures
        r@ == launcher_name_of(platform),
{
    match platform {
        Platform::Windows => "ArchipelagoLauncher.exe",
        Platform::Linux => "ArchipelagoLauncher",
    }
}

} // verus!
