//! Launching: one launcher command per selected player, laid out before
//! any is started, and what is kept of each attempt.

use vstd::prelude::*;
use vstd::string::*;

use crate::consts::TRACKER_ARG;
use crate::error::ValidationError;
use crate::model::{opt_view, result_view, views};
use crate::port::Port;
use crate::report::{Warning, WarningView};
use crate::text::{decimal, decimal_of};

verus! {

/// What all launches of a run share.
#[derive(Debug, Clone, PartialEq, Eq)]
pub struct SharedLaunchConfig {
    /// The installation directory, in which each launcher runs.
    pub directory: String,
    /// The path of the launcher executable.
    pub executable: String,
    /// The server to connect to.
    pub host: String,
    /// The server's port.
    pub port: Port,
}

/// A [`SharedLaunchConfig`] with its strings as sequences of characters.
pub struct SharedLaunchConfigView {
    pub directory: Seq<char>,
    pub executable: Seq<char>,
    pub host: Seq<char>,
    pub port: u16,
}

impl View for SharedLaunchConfig {
    type V = SharedLaunchConfigView;

    open spec fn view(&self) -> SharedLaunchConfigView {
        SharedLaunchConfigView {
            directory: self.directory@,
            executable: self.executable@,
            host: self.host@,
            port: self.port@,
        }
    }
}

/// The launch of one player. It does not change once it is made.
#[derive(Debug, Clone, PartialEq, Eq)]
pub struct LaunchTarget {
    identity: String,
    host: String,
    port: Port,
    directory: String,
    executable: String,
}

/// A [`LaunchTarget`] with its strings as sequences of characters.
pub struct LaunchTargetView {
    pub identity: Seq<char>,
    pub host: Seq<char>,
    pub port: u16,
    pub directory: Seq<char>,
    pub executable: Seq<char>,
}

impl View for LaunchTarget {
    type V = LaunchTargetView;

    closed spec fn view(&self) -> LaunchTargetView {
        LaunchTargetView {
            identity: self.identity@,
            host: self.host@,
            port: self.port@,
            directory: self.directory@,
            executable: self.executable@,
        }
    }
}

/// The launch of the player `identity` under `config`.
pub open spec fn target_of(
    identity: Seq<char>,
    config: SharedLaunchConfigView,
) -> LaunchTargetView {
    LaunchTargetView {
        identity,
        host: config.host,
        port: config.port,
        directory: config.directory,
        executable: config.executable,
    }
}

/// What the launcher is told to connect to: host and port with a colon
/// between them, both as they are.
pub open spec fn connect_target_of(host: Seq<char>, port: u16) -> Seq<char> {
    host + ":"@ + decimal_of(port as nat)
}

/// The arguments of a launch: the component to start, a separator, the
/// player's name and the server.
pub open spec fn arguments_of(target: LaunchTargetView) -> Seq<Seq<char>> {
    seq![
        TRACKER_ARG@,
        "--"@,
        "--name"@,
        target.identity,
        "--connect"@,
        connect_target_of(target.host, target.port),
    ]
}

/// Joins host and port into what follows `--connect`.
pub fn connect_target(host: &str, port: Port) -> (r: String)
    ensures
        r@ == connect_target_of(host@, port@),
{
    let mut r: String = host.to_owned();
    r.append(":");
    let number: String = decimal(port.get() as u64);
    r.append(number.as_str());
    r
}

impl LaunchTarget {
    /// Makes the launch of one player under the shared configuration.
    pub fn new(identity: &str, config: &SharedLaunchConfig) -> (target: LaunchTarget)
        ensures
            target@ == target_of(identity@, config@),
    {
        LaunchTarget {
            identity: identity.to_owned(),
            host: config.host.clone(),
            port: config.port,
            directory: config.directory.clone(),
            executable: config.executable.clone(),
        }
    }

    /// The player that is launched.
    pub fn identity(&self) -> (r: &str)
        ensures
            r@ == self@.identity,
    {
        self.identity.as_str()
    }

    /// The server to connect to.
    pub fn host(&self) -> (r: &str)
        ensures
            r@ == self@.host,
    {
        self.host.as_str()
    }

    /// The server's port.
    pub fn port(&self) -> (r: Port)
        ensures
            r@ == self@.port,
    {
        self.port
    }

    /// The directory in which the launcher runs.
    pub fn directory(&self) -> (r: &str)
        ensures
            r@ == self@.directory,
    {
        self.directory.as_str()
    }

    /// The path of the launcher executable.
    pub fn executable(&self) -> (r: &str)
        ensures
            r@ == self@.executable,
    {
        self.executable.as_str()
    }

    /// The arguments with which the launcher is started for this player.
    pub fn arguments(&self) -> (arguments: Vec<String>)
        ensures
            views(arguments@) == arguments_of(self@),
            arguments.len() == 6,
    {
        let mut arguments: Vec<String> = Vec::new();
        arguments.push(TRACKER_ARG.to_owned());
        arguments.push("--".to_owned());
        arguments.push("--name".to_owned());
        arguments.push(self.identity.clone());
        arguments.push("--connect".to_owned());
        arguments.push(connect_target(self.host.as_str(), self.port));
        assert(views(arguments@) =~= arguments_of(self@));
        arguments
    }
}

/// The launches of a run: none without the launcher executable, else one
/// for each player, in the players' order.
pub open spec fn planned(
    players: Seq<Seq<char>>,
    config: SharedLaunchConfigView,
    executable_present: bool,
) -> Result<Seq<LaunchTargetView>, ValidationError> {
    if executable_present {
        Ok(Seq::new(players.len(), |i: int| target_of(players[i], config)))
    } else {
        Err(ValidationError::NoArchipelago)
    }
}

/// Lays out the launches of a run before any is started. Without the
/// launcher executable nothing is launched for any player: the run fails.
/// Otherwise every player gets a launch, whatever becomes of the others.
pub fn plan_launches(
    players: &Vec<String>,
    config: &SharedLaunchConfig,
    executable_present: bool,
) -> (r: Result<Vec<LaunchTarget>, ValidationError>)
    ensures
        match r {
            Ok(targets) => planned(views(players@), config@, executable_present) == Ok::<
                _,
                ValidationError,
            >(views(targets@)),
            Err(e) => planned(views(players@), config@, executable_present) == Err::<
                Seq<LaunchTargetView>,
                _,
            >(e),
        },
        r is Err <==> !executable_present,
        r matches Ok(targets) ==> targets.len() == players.len(),
{
    if !executable_present {
        return Err(ValidationError::NoArchipelago);
    }
    let ghost wanted = Seq::new(
        players.len() as nat,
        |i: int| target_of(views(players@)[i], config@),
    );
    let mut targets: Vec<LaunchTarget> = Vec::new();
    let mut i: usize = 0;
    while i < players.len()
        invariant
            i <= players.len(),
            targets.len() == i,
            wanted == Seq::new(
                players.len() as nat,
                |i: int| target_of(views(players@)[i], config@),
            ),
            views(targets@) =~= wanted.take(i as int),
        decreases players.len() - i,
    {
        let ghost before = views(targets@);
        let target = LaunchTarget::new(players[i].as_str(), config);
        targets.push(target);
        assert(views(targets@) =~= before.push(target@));
        i = i + 1;
    }
    assert(wanted.take(i as int) =~= wanted);
    Ok(targets)
}

/// What became of one launch.
#[derive(Debug, Clone, PartialEq, Eq)]
pub enum LaunchResult {
    /// The launcher was started and has ended, with whatever status.
    Launched,
    /// The launcher could not be started or waited for.
    Failed { identity: String, cause: String },
}

/// A [`LaunchResult`] with its strings as sequences of characters.
pub enum LaunchResultView {
    Launched,
    Failed { identity: Seq<char>, cause: Seq<char> },
}

impl View for LaunchResult {
    type V = LaunchResultView;

    open spec fn view(&self) -> LaunchResultView {
        match self {
            LaunchResult::Launched => LaunchResultView::Launched,
            LaunchResult::Failed { identity, cause } => LaunchResultView::Failed {
                identity: identity@,
                cause: cause@,
            },
        }
    }
}

/// What an attempt for `identity` amounts to, given how starting the
/// launcher went.
pub open spec fn recorded(identity: Seq<char>, outcome: Result<(), Seq<char>>) -> LaunchResultView {
    match outcome {
        Ok(_) => LaunchResultView::Launched,
        Err(cause) => LaunchResultView::Failed { identity, cause },
    }
}

/// The warning that a launch result calls for: one for a failure, naming
/// the player and the cause.
pub open spec fn warning_of(result: LaunchResultView) -> Option<WarningView> {
    match result {
        LaunchResultView::Launched => None,
        LaunchResultView::Failed { identity, cause } => Some(
            WarningView::LaunchFailed { identity, cause },
        ),
    }
}

/// Records how the launch of `target` went. A failure is kept with its
/// player and cause, and touches no other launch.
pub fn record(target: &LaunchTarget, outcome: Result<(), String>) -> (result: LaunchResult)
    ensures
        result@ == recorded(target@.identity, result_view(outcome)),
{
    match outcome {
        Ok(_) => LaunchResult::Launched,
        Err(cause) => LaunchResult::Failed { identity: target.identity.clone(), cause },
    }
}

/// What became of the launches of `players`, given how starting the
/// launcher went for each.
pub open spec fn results_of(players: Seq<Seq<char>>, outcomes: Seq<Result<(), Seq<char>>>) -> Seq<
    LaunchResultView,
> {
    Seq::new(players.len(), |i: int| recorded(players[i], outcomes[i]))
}

/// A launch that fails is contained. With the launcher executable there,
/// every player has a launch of its own, laid out before any outcome is
/// known; and where the launch of player `k` fails, the result of every
/// other player is what it would have been.
pub proof fn lemma_failure_is_contained(
    players: Seq<Seq<char>>,
    config: SharedLaunchConfigView,
    outcomes: Seq<Result<(), Seq<char>>>,
    k: int,
    cause: Seq<char>,
)
    requires
        outcomes.len() == players.len(),
        0 <= k < players.len(),
    ensures
        planned(players, config, true) is Ok,
        planned(players, config, true)->Ok_0.len() == players.len(),
        forall|i: int|
            0 <= i < players.len() ==> (#[trigger] planned(players, config, true)->Ok_0[i]).identity
                == players[i],
        results_of(players, outcomes.update(k, Err(cause))).len() == players.len(),
        results_of(players, outcomes.update(k, Err(cause)))[k] == (LaunchResultView::Failed {
            identity: players[k],
            cause,
        }),
        forall|i: int|
            0 <= i < players.len() && i != k ==> #[trigger] results_of(
                players,
                outcomes.update(k, Err(cause)),
            )[i] == results_of(players, outcomes)[i],
{
}

impl LaunchResult {
    /// The warning to give for this result, if it is a failure.
    pub fn warning(&self) -> (r: Option<Warning>)
        ensures
            opt_view(r) == warning_of(self@),
    {
        match self {
            LaunchResult::Launched => None,
            LaunchResult::Failed { identity, cause } => Some(
                Warning::LaunchFailed { identity: identity.clone(), cause: cause.clone() },
            ),
        }
    }
}

} // verus!
