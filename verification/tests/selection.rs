use utracker_launcher::definition::PlayerDefinition;
use utracker_launcher::error::ValidationError;
use utracker_launcher::report::Warning;
use utracker_launcher::selection::{identities, pick, resolve, Resolution};

fn players(names: &[&str]) -> Vec<PlayerDefinition> {
    names.iter().map(|n| PlayerDefinition { name: (*n).to_owned() }).collect()
}

fn selected(names: &[&str]) -> Resolution {
    Resolution::Selected(names.iter().map(|n| (*n).to_owned()).collect())
}

/// Plays the part of the user: runs the selection to its end on the
/// answers given, and tells how often the user was asked.
fn run(discovered: &Vec<PlayerDefinition>, answers: &[Vec<usize>]) -> (Vec<String>, usize, usize) {
    let mut asked = 0;
    let mut warned = 0;
    let mut step = resolve(discovered).expect("players");
    loop {
        match step {
            Resolution::Selected(names) => return (names, asked, warned),
            Resolution::Ask => {}
            Resolution::AskAgain(warning) => {
                assert_eq!(warning, Warning::EmptySelection);
                warned += 1;
            }
        }
        let answer = &answers[asked];
        asked += 1;
        step = pick(discovered, answer);
    }
}

#[test]
fn identities_are_the_names_in_order() {
    assert_eq!(identities(&players(&["Bob", "Alice", "Bob"])), vec!["Bob", "Alice", "Bob"]);
    assert_eq!(identities(&players(&[])), Vec::<String>::new());
}

#[test]
fn a_single_player_is_selected_without_asking() {
    let discovered = players(&["Alice"]);
    assert_eq!(resolve(&discovered), Ok(selected(&["Alice"])));
    assert_eq!(run(&discovered, &[]), (vec!["Alice".to_owned()], 0, 0));
}

#[test]
fn several_players_are_put_to_the_user() {
    assert_eq!(resolve(&players(&["Alice", "Bob"])), Ok(Resolution::Ask));
    assert_eq!(resolve(&players(&["Alice", "Bob", "Carol"])), Ok(Resolution::Ask));
}

#[test]
fn no_players_cannot_be_resolved() {
    assert_eq!(resolve(&players(&[])), Err(ValidationError::NoPlayers));
}

#[test]
fn an_empty_choice_asks_again() {
    let discovered = players(&["Alice", "Bob"]);
    assert_eq!(pick(&discovered, &Vec::new()), Resolution::AskAgain(Warning::EmptySelection));
}

#[test]
fn a_choice_selects_the_players_at_the_indices() {
    let discovered = players(&["Alice", "Bob", "Carol"]);
    assert_eq!(pick(&discovered, &vec![0, 2]), selected(&["Alice", "Carol"]));
    assert_eq!(pick(&discovered, &vec![2, 0]), selected(&["Carol", "Alice"]));
    assert_eq!(pick(&discovered, &vec![1]), selected(&["Bob"]));
    assert_eq!(pick(&discovered, &vec![0, 1, 2]), selected(&["Alice", "Bob", "Carol"]));
}

#[test]
fn the_user_is_asked_until_the_choice_is_not_empty() {
    let discovered = players(&["Alice", "Bob", "Carol"]);
    let (names, asked, warned) = run(&discovered, &[vec![], vec![], vec![1, 2]]);
    assert_eq!(names, vec!["Bob", "Carol"]);
    assert_eq!(asked, 3);
    assert_eq!(warned, 2);
    let (names, asked, warned) = run(&discovered, &[vec![0]]);
    assert_eq!(names, vec!["Alice"]);
    assert_eq!(asked, 1);
    assert_eq!(warned, 0);
}

#[test]
fn a_selection_is_never_empty() {
    let discovered = players(&["Alice", "Bob"]);
    for answer in [vec![], vec![0], vec![1], vec![0, 1], vec![1, 0]] {
        match pick(&discovered, &answer) {
            Resolution::Selected(names) => {
                assert!(!names.is_empty());
                assert!(names.iter().all(|n| discovered.iter().any(|p| &p.name == n)));
            }
            Resolution::AskAgain(_) => assert!(answer.is_empty()),
            Resolution::Ask => panic!("a choice was made"),
        }
    }
}
