//! Launch planning for a multi-player tracker: player definition files are
//! parsed and gathered, a selection is settled, and one launcher command is
//! laid out per selected player.

pub mod args;
pub mod consts;
pub mod definition;
pub mod discovery;
pub mod error;
pub mod launch;
pub mod model;
pub mod port;
pub mod report;
pub mod selection;
pub mod text;
