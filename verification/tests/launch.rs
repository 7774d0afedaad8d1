use utracker_launcher::consts::TRACKER_ARG;
use utracker_launcher::error::ValidationError;
use utracker_launcher::launch::{
    connect_target, plan_launches, record, LaunchResult, LaunchTarget, SharedLaunchConfig,
};
use utracker_launcher::port::Port;
use utracker_launcher::report::Warning;

fn port(number: u16) -> Port {
    Port::new(number).expect("a port that is not zero")
}

fn config() -> SharedLaunchConfig {
    SharedLaunchConfig {
        directory: "/opt/Archipelago".to_owned(),
        executable: "/opt/Archipelago/ArchipelagoLauncher".to_owned(),
        host: "archipelago.gg".to_owned(),
        port: port(38281),
    }
}

fn names(list: &[&str]) -> Vec<String> {
    list.iter().map(|n| (*n).to_owned()).collect()
}

#[test]
fn a_port_is_never_zero() {
    assert_eq!(Port::new(0), None);
    assert_eq!(Port::new(1).map(|p| p.get()), Some(1));
    assert_eq!(Port::new(38281).map(|p| p.get()), Some(38281));
    assert_eq!(Port::new(u16::MAX).map(|p| p.get()), Some(65535));
}

#[test]
fn the_arguments_are_marker_separator_name_and_server() {
    let target = LaunchTarget::new("Alice", &config());
    assert_eq!(
        target.arguments(),
        vec!["Universal Tracker", "--", "--name", "Alice", "--connect", "archipelago.gg:38281"]
    );
    assert_eq!(target.arguments()[0], TRACKER_ARG);
}

#[test]
fn host_and_port_are_joined_as_they_are() {
    assert_eq!(connect_target("archipelago.gg", port(38281)), "archipelago.gg:38281");
    assert_eq!(connect_target("localhost", port(1)), "localhost:1");
    assert_eq!(connect_target("::1", port(65535)), "::1:65535");
    assert_eq!(connect_target("my host/%20", port(80)), "my host/%20:80");
    assert_eq!(connect_target("", port(10)), ":10");
}

#[test]
fn the_identity_is_passed_as_it_is() {
    let target = LaunchTarget::new("--connect evil \"quoted\"", &config());
    assert_eq!(target.arguments()[3], "--connect evil \"quoted\"");
    assert_eq!(target.arguments().len(), 6);
}

#[test]
fn a_target_holds_what_is_shared() {
    let target = LaunchTarget::new("Alice", &config());
    assert_eq!(target.identity(), "Alice");
    assert_eq!(target.host(), "archipelago.gg");
    assert_eq!(target.port(), port(38281));
    assert_eq!(target.directory(), "/opt/Archipelago");
    assert_eq!(target.executable(), "/opt/Archipelago/ArchipelagoLauncher");
}

#[test]
fn every_player_gets_a_launch_in_order() {
    let targets = plan_launches(&names(&["Alice", "Bob", "Carol"]), &config(), true).expect("plan");
    assert_eq!(targets.len(), 3);
    let identities: Vec<&str> = targets.iter().map(|t| t.identity()).collect();
    assert_eq!(identities, vec!["Alice", "Bob", "Carol"]);
    for target in &targets {
        assert_eq!(*target, LaunchTarget::new(target.identity(), &config()));
        assert_eq!(target.arguments()[5], "archipelago.gg:38281");
    }
}

#[test]
fn without_the_executable_nothing_is_launched() {
    assert_eq!(
        plan_launches(&names(&["Alice", "Bob", "Carol"]), &config(), false),
        Err(ValidationError::NoArchipelago)
    );
    assert_eq!(plan_launches(&Vec::new(), &config(), false), Err(ValidationError::NoArchipelago));
}

#[test]
fn a_plan_for_no_players_is_empty() {
    assert_eq!(plan_launches(&Vec::new(), &config(), true), Ok(Vec::new()));
}

#[test]
fn one_failure_leaves_the_other_launches_alone() {
    let targets = plan_launches(&names(&["Alice", "Bob", "Carol"]), &config(), true).expect("plan");
    let mut attempts = Vec::new();
    let mut results = Vec::new();
    for target in &targets {
        attempts.push(target.identity().to_owned());
        let outcome = if target.identity() == "Bob" {
            Err("No such file or directory (os error 2)".to_owned())
        } else {
            Ok(())
        };
        results.push(record(target, outcome));
    }
    assert_eq!(attempts, vec!["Alice", "Bob", "Carol"]);
    assert_eq!(
        results,
        vec![
            LaunchResult::Launched,
            LaunchResult::Failed {
                identity: "Bob".to_owned(),
                cause: "No such file or directory (os error 2)".to_owned()
            },
            LaunchResult::Launched,
        ]
    );
    let warnings: Vec<Warning> = results.iter().filter_map(|r| r.warning()).collect();
    assert_eq!(
        warnings,
        vec![Warning::LaunchFailed {
            identity: "Bob".to_owned(),
            cause: "No such file or directory (os error 2)".to_owned()
        }]
    );
}

#[test]
fn a_launch_that_went_well_calls_for_no_warning() {
    let target = LaunchTarget::new("Alice", &config());
    assert_eq!(record(&target, Ok(())), LaunchResult::Launched);
    assert_eq!(LaunchResult::Launched.warning(), None);
}

#[test]
fn a_failed_launch_names_the_player_and_the_cause() {
    let target = LaunchTarget::new("Alice", &config());
    let result = record(&target, Err("Exec format error".to_owned()));
    assert_eq!(
        result,
        LaunchResult::Failed { identity: "Alice".to_owned(), cause: "Exec format error".to_owned() }
    );
    assert_eq!(
        result.warning().map(|w| w.message()),
        Some("Failed to run user 'Alice': Exec format error".to_owned())
    );
}
