use utracker_launcher::definition::{ParseError, PlayerDefinition};
use utracker_launcher::discovery::{
    candidates, discover, examine, gather, is_definition_file, judge, CandidateFile,
    DirectoryEntry, Discovery,
};
use utracker_launcher::error::ValidationError;
use utracker_launcher::report::Warning;
use yaml_rust2::YamlLoader;

fn file(name: &str) -> DirectoryEntry {
    DirectoryEntry { name: name.to_owned(), is_file: true }
}

fn directory(name: &str) -> DirectoryEntry {
    DirectoryEntry { name: name.to_owned(), is_file: false }
}

fn readable(path: &str, text: &str) -> CandidateFile {
    CandidateFile { path: path.to_owned(), contents: Ok(text.to_owned()) }
}

fn unreadable(path: &str, cause: &str) -> CandidateFile {
    CandidateFile { path: path.to_owned(), contents: Err(cause.to_owned()) }
}

fn player(name: &str) -> PlayerDefinition {
    PlayerDefinition { name: name.to_owned() }
}

fn sorted_names(d: &Discovery) -> Vec<String> {
    let mut names: Vec<String> =
        d.players.as_ref().expect("players").iter().map(|p| p.name.clone()).collect();
    names.sort();
    names
}

fn sorted_messages(d: &Discovery) -> Vec<String> {
    let mut messages: Vec<String> = d.warnings.iter().map(|w| w.message()).collect();
    messages.sort();
    messages
}

fn mixed_files() -> Vec<CandidateFile> {
    vec![
        readable("Players/alice.yaml", "name: Alice\n"),
        unreadable("Players/locked.yaml", "Permission denied (os error 13)"),
        readable("Players/bob.yaml", "\u{feff}name: Bob\ngame: Clique\n"),
        readable("Players/broken.yaml", "name: [Carol\n"),
        readable("Players/nameless.yaml", "game: Clique\n"),
        readable("Players/dave.yaml", "game: Clique\nname: Dave\n"),
    ]
}

#[test]
fn a_definition_file_is_a_regular_file_named_yaml() {
    assert!(is_definition_file(&file("alice.yaml")));
    assert!(is_definition_file(&file("alice.bob.yaml")));
    assert!(is_definition_file(&file(".hidden.yaml")));
    assert!(!is_definition_file(&directory("alice.yaml")));
    assert!(!is_definition_file(&file("alice.YAML")));
    assert!(!is_definition_file(&file("alice.Yaml")));
    assert!(!is_definition_file(&file("alice.yml")));
    assert!(!is_definition_file(&file("alice.yaml.bak")));
    assert!(!is_definition_file(&file("alice.yaml ")));
    assert!(!is_definition_file(&file(".yaml")));
    assert!(!is_definition_file(&file("yaml")));
    assert!(!is_definition_file(&file("alice")));
    assert!(!is_definition_file(&file("")));
}

#[test]
fn candidates_keeps_the_definition_files_in_order() {
    let entries = vec![
        file("zed.yaml"),
        file("readme.txt"),
        directory("archive.yaml"),
        file("alice.yaml"),
        file("alice.YAML"),
        file("bob.yaml"),
    ];
    assert_eq!(candidates(&entries), vec!["zed.yaml", "alice.yaml", "bob.yaml"]);
    assert_eq!(candidates(&Vec::new()), Vec::<String>::new());
    assert_eq!(candidates(&vec![file("notes.md")]), Vec::<String>::new());
}

#[test]
fn judge_names_the_file_and_the_cause() {
    assert_eq!(judge("p/a.yaml", Ok(player("Alice"))), Ok(player("Alice")));
    assert_eq!(
        judge("p/a.yaml", Err(ParseError::Syntax("bad indent".to_owned()))),
        Err(Warning::Unparsable { path: "p/a.yaml".to_owned(), cause: "bad indent".to_owned() })
    );
    assert_eq!(
        judge("p/a.yaml", Err(ParseError::MissingName)),
        Err(Warning::MissingName { path: "p/a.yaml".to_owned() })
    );
}

#[test]
fn examine_reads_parses_and_warns() {
    assert_eq!(examine(&readable("a.yaml", "name: Alice\n")), Ok(player("Alice")));
    assert_eq!(
        examine(&unreadable("a.yaml", "stream did not contain valid UTF-8")),
        Err(Warning::Unreadable {
            path: "a.yaml".to_owned(),
            cause: "stream did not contain valid UTF-8".to_owned()
        })
    );
    assert_eq!(
        examine(&readable("a.yaml", "game: Clique\n")),
        Err(Warning::MissingName { path: "a.yaml".to_owned() })
    );
    let cause = YamlLoader::load_from_str("name: [Carol\n").unwrap_err().to_string();
    assert_eq!(
        examine(&readable("a.yaml", "name: [Carol\n")),
        Err(Warning::Unparsable { path: "a.yaml".to_owned(), cause })
    );
}

#[test]
fn gather_splits_players_from_warnings() {
    let d = gather(vec![
        Ok(player("Alice")),
        Err(Warning::MissingName { path: "x.yaml".to_owned() }),
        Ok(player("Bob")),
        Err(Warning::Unreadable { path: "y.yaml".to_owned(), cause: "gone".to_owned() }),
    ]);
    assert_eq!(d.players, Ok(vec![player("Alice"), player("Bob")]));
    assert_eq!(
        d.warnings,
        vec![
            Warning::MissingName { path: "x.yaml".to_owned() },
            Warning::Unreadable { path: "y.yaml".to_owned(), cause: "gone".to_owned() },
        ]
    );
}

#[test]
fn gather_without_a_player_fails() {
    assert_eq!(
        gather(Vec::new()),
        Discovery { players: Err(ValidationError::NoPlayers), warnings: Vec::new() }
    );
    let d = gather(vec![Err(Warning::MissingName { path: "x.yaml".to_owned() })]);
    assert_eq!(d.players, Err(ValidationError::NoPlayers));
    assert_eq!(d.warnings.len(), 1);
}

#[test]
fn discovery_skips_bad_files_and_keeps_the_good_ones() {
    let d = discover(Some(mixed_files()));
    assert_eq!(d.players, Ok(vec![player("Alice"), player("Bob"), player("Dave")]));
    assert_eq!(d.warnings.len(), 3);
    let cause = YamlLoader::load_from_str("name: [Carol\n").unwrap_err().to_string();
    assert_eq!(
        d.warnings,
        vec![
            Warning::Unreadable {
                path: "Players/locked.yaml".to_owned(),
                cause: "Permission denied (os error 13)".to_owned()
            },
            Warning::Unparsable { path: "Players/broken.yaml".to_owned(), cause },
            Warning::MissingName { path: "Players/nameless.yaml".to_owned() },
        ]
    );
}

#[test]
fn discovery_counts_do_not_depend_on_the_order() {
    let reference = discover(Some(mixed_files()));
    let orders: [[usize; 6]; 5] = [
        [5, 4, 3, 2, 1, 0],
        [1, 3, 4, 0, 2, 5],
        [0, 2, 5, 1, 3, 4],
        [3, 0, 4, 2, 1, 5],
        [2, 5, 0, 4, 3, 1],
    ];
    for order in orders {
        let mut files: Vec<Option<CandidateFile>> = mixed_files().into_iter().map(Some).collect();
        let shuffled: Vec<CandidateFile> =
            order.iter().map(|&i| files[i].take().expect("each file once")).collect();
        let d = discover(Some(shuffled));
        assert_eq!(d.players.as_ref().map(Vec::len), Ok(3));
        assert_eq!(d.warnings.len(), 3);
        assert_eq!(sorted_names(&d), sorted_names(&reference));
        assert_eq!(sorted_messages(&d), sorted_messages(&reference));
    }
}

#[test]
fn discovery_on_an_empty_directory_finds_no_players() {
    assert_eq!(
        discover(Some(Vec::new())),
        Discovery { players: Err(ValidationError::NoPlayers), warnings: Vec::new() }
    );
}

#[test]
fn discovery_without_a_valid_file_finds_no_players() {
    let d = discover(Some(vec![
        readable("a.yaml", "game: Clique\n"),
        unreadable("b.yaml", "gone"),
        readable("c.yaml", "- just\n- a list\n"),
    ]));
    assert_eq!(d.players, Err(ValidationError::NoPlayers));
    assert_eq!(d.warnings.len(), 3);
}

#[test]
fn discovery_without_the_directory_is_another_failure() {
    let d = discover(None);
    assert_eq!(d, Discovery { players: Err(ValidationError::NoPlayerDir), warnings: Vec::new() });
    assert_ne!(d.players, discover(Some(Vec::new())).players);
}

#[test]
fn discovery_keeps_players_of_the_same_name() {
    let d = discover(Some(vec![
        readable("a.yaml", "name: Alice\n"),
        readable("b.yaml", "name: Alice\n"),
    ]));
    assert_eq!(d.players, Ok(vec![player("Alice"), player("Alice")]));
    assert!(d.warnings.is_empty());
}
