use utracker_launcher::args::{Args, ConfigArgs, SetupStep};
use utracker_launcher::launch::SharedLaunchConfig;
use utracker_launcher::port::Port;

fn port(number: u16) -> Port {
    Port::new(number).expect("a port that is not zero")
}

fn names(list: &[&str]) -> Vec<String> {
    list.iter().map(|n| (*n).to_owned()).collect()
}

#[test]
fn without_a_configuration_nothing_is_known() {
    assert_eq!(ConfigArgs::default(), ConfigArgs { location: None, port: None, host: None });
}

#[test]
fn the_location_is_asked_for_first() {
    assert_eq!(ConfigArgs::default().next_step(), SetupStep::AskLocation);
    let config = ConfigArgs { location: None, port: Some(port(38281)), host: None };
    assert_eq!(config.next_step(), SetupStep::AskLocation);
    let config =
        ConfigArgs { location: None, port: Some(port(1)), host: Some("localhost".to_owned()) };
    assert_eq!(config.next_step(), SetupStep::AskLocation);
}

#[test]
fn the_port_is_asked_for_second() {
    let config = ConfigArgs { location: Some("/opt/ap".to_owned()), port: None, host: None };
    assert_eq!(config.next_step(), SetupStep::AskPort);
    let config = ConfigArgs {
        location: Some("/opt/ap".to_owned()),
        port: None,
        host: Some("localhost".to_owned()),
    };
    assert_eq!(config.next_step(), SetupStep::AskPort);
}

#[test]
fn the_host_is_never_asked_for() {
    let config =
        ConfigArgs { location: Some("/opt/ap".to_owned()), port: Some(port(38281)), host: None };
    assert_eq!(config.next_step(), SetupStep::FindPlayers);
}

#[test]
fn asking_fills_the_settings_step_by_step() {
    let mut config = ConfigArgs::default();
    let mut asked = Vec::new();
    loop {
        match config.next_step() {
            SetupStep::AskLocation => {
                asked.push("location");
                config.location = Some("/opt/ap".to_owned());
            }
            SetupStep::AskPort => {
                asked.push("port");
                config.port = Some(port(4000));
            }
            SetupStep::FindPlayers => break,
        }
    }
    assert_eq!(asked, vec!["location", "port"]);
    let args = Args::assemble(config, names(&["Alice"])).expect("complete");
    assert_eq!(
        args,
        Args {
            location: "/opt/ap".to_owned(),
            port: port(4000),
            host: "archipelago.gg".to_owned(),
            players: names(&["Alice"]),
        }
    );
}

#[test]
fn a_configured_host_is_kept() {
    let config = ConfigArgs {
        location: Some("C:\\Archipelago".to_owned()),
        port: Some(port(38281)),
        host: Some("localhost".to_owned()),
    };
    let args = Args::assemble(config, names(&["Alice", "Bob"])).expect("complete");
    assert_eq!(args.host, "localhost");
    assert_eq!(args.location, "C:\\Archipelago");
    assert_eq!(args.port.get(), 38281);
    assert_eq!(args.players, vec!["Alice", "Bob"]);
}

#[test]
fn incomplete_settings_are_not_assembled() {
    let no_location = ConfigArgs { location: None, port: Some(port(1)), host: None };
    assert_eq!(Args::assemble(no_location, names(&["Alice"])), None);
    let no_port = ConfigArgs { location: Some("/opt/ap".to_owned()), port: None, host: None };
    assert_eq!(Args::assemble(no_port, names(&["Alice"])), None);
    let complete =
        ConfigArgs { location: Some("/opt/ap".to_owned()), port: Some(port(1)), host: None };
    assert_eq!(Args::assemble(complete, Vec::new()), None);
}

#[test]
fn the_launch_configuration_takes_over_the_settings() {
    let args = Args {
        location: "/opt/ap".to_owned(),
        port: port(38281),
        host: "archipelago.gg".to_owned(),
        players: names(&["Alice"]),
    };
    assert_eq!(
        args.launch_config("/opt/ap/ArchipelagoLauncher".to_owned()),
        SharedLaunchConfig {
            directory: "/opt/ap".to_owned(),
            executable: "/opt/ap/ArchipelagoLauncher".to_owned(),
            host: "archipelago.gg".to_owned(),
            port: port(38281),
        }
    );
}
