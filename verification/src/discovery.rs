//! Player discovery: which files of the players directory are definition
//! files, and what reading and parsing them yields.

use vstd::prelude::*;
use vstd::seq_lib::*;
use vstd::string::*;

use crate::consts::YAML_EXT;
use crate::definition::{parse_definition, parsed, ParseError, ParseErrorView, PlayerDefinition};
use crate::error::ValidationError;
use crate::model::{result_view, views};
use crate::report::{Warning, WarningView};
use crate::text::{extension, extension_of, same_text};

verus! {

/// One direct entry of the players directory.
#[derive(Debug, Clone, PartialEq, Eq)]
pub struct DirectoryEntry {
    /// The entry's file name, without the directory.
    pub name: String,
    /// Whether the entry is a regular file.
    pub is_file: bool,
}

/// A [`DirectoryEntry`] with its name as a sequence of characters.
pub struct DirectoryEntryView {
    pub name: Seq<char>,
    pub is_file: bool,
}

impl View for DirectoryEntry {
    type V = DirectoryEntryView;

    open spec fn view(&self) -> DirectoryEntryView {
        DirectoryEntryView { name: self.name@, is_file: self.is_file }
    }
}

/// Whether an entry is a definition file: a regular file whose extension is
/// exactly `yaml`.
pub open spec fn is_candidate(entry: DirectoryEntryView) -> bool {
    entry.is_file && extension_of(entry.name) == Some(YAML_EXT@)
}

/// The names of the definition files among `entries`, in their order.
pub open spec fn candidates_of(entries: Seq<DirectoryEntryView>) -> Seq<Seq<char>>
    decreases entries.len(),
{
    if entries.len() == 0 {
        Seq::empty()
    } else if is_candidate(entries.last()) {
        candidates_of(entries.drop_last()).push(entries.last().name)
    } else {
        candidates_of(entries.drop_last())
    }
}

/// Tells whether an entry is a definition file.
pub fn is_definition_file(entry: &DirectoryEntry) -> (r: bool)
    ensures
        r == is_candidate(entry@),
{
    if !entry.is_file {
        return false;
    }
    match extension(entry.name.as_str()) {
        Some(ext) => same_text(ext, YAML_EXT),
        None => false,
    }
}

/// Picks the definition files among the entries of the players directory.
pub fn candidates(entries: &Vec<DirectoryEntry>) -> (names: Vec<String>)
    ensures
        views(names@) == candidates_of(views(entries@)),
{
    let mut names: Vec<String> = Vec::new();
    let mut i: usize = 0;
    assert(views(entries@).take(0) =~= Seq::empty());
    assert(views(names@) =~= Seq::empty());
    while i < entries.len()
        invariant
            i <= entries.len(),
            views(names@) == candidates_of(views(entries@).take(i as int)),
        decreases entries.len() - i,
    {
        let ghost seen = views(entries@).take(i + 1);
        assert(seen.drop_last() =~= views(entries@).take(i as int));
        assert(seen.last() == entries@[i as int]@);
        if is_definition_file(&entries[i]) {
            let ghost before = views(names@);
            names.push(entries[i].name.clone());
            assert(views(names@) =~= before.push(entries@[i as int].name@));
        }
        i = i + 1;
    }
    assert(views(entries@).take(i as int) =~= views(entries@));
    names
}

/// One definition file as it was found: its path, and its text or the
/// reason why it could not be read.
#[derive(Debug, PartialEq, Eq)]
pub struct CandidateFile {
    pub path: String,
    pub contents: Result<String, String>,
}

/// A [`CandidateFile`] with its strings as sequences of characters.
pub struct CandidateFileView {
    pub path: Seq<char>,
    pub contents: Result<Seq<char>, Seq<char>>,
}

impl View for CandidateFile {
    type V = CandidateFileView;

    open spec fn view(&self) -> CandidateFileView {
        CandidateFileView {
            path: self.path@,
            contents: result_view(self.contents),
        }
    }
}

/// What each file of a run yielded, a player or a warning, with the
/// strings as sequences of characters.
pub open spec fn outcome_views(outcomes: Seq<Result<PlayerDefinition, Warning>>) -> Seq<
    Result<Seq<char>, WarningView>,
> {
    outcomes.map_values(|o: Result<PlayerDefinition, Warning>| result_view(o))
}

/// What the result of parsing the file at `path` yields: the name, or a
/// warning that names the file and the cause.
pub open spec fn judged(path: Seq<char>, parse: Result<Seq<char>, ParseErrorView>) -> Result<
    Seq<char>,
    WarningView,
> {
    match parse {
        Ok(name) => Ok(name),
        Err(ParseErrorView::Syntax(cause)) => Err(WarningView::Unparsable { path, cause }),
        Err(ParseErrorView::MissingName) => Err(WarningView::MissingName { path }),
    }
}

/// What a candidate file yields: an unreadable file a warning, a readable
/// one what its parse yields.
pub open spec fn examined(file: CandidateFileView) -> Result<Seq<char>, WarningView> {
    match file.contents {
        Err(cause) => Err(WarningView::Unreadable { path: file.path, cause }),
        Ok(text) => judged(file.path, parsed(text)),
    }
}

/// The names among `outcomes`, in their order.
pub open spec fn players_of(outcomes: Seq<Result<Seq<char>, WarningView>>) -> Seq<Seq<char>>
    decreases outcomes.len(),
{
    if outcomes.len() == 0 {
        Seq::empty()
    } else {
        match outcomes.last() {
            Ok(name) => players_of(outcomes.drop_last()).push(name),
            Err(_) => players_of(outcomes.drop_last()),
        }
    }
}

/// The warnings among `outcomes`, in their order.
pub open spec fn warnings_of(outcomes: Seq<Result<Seq<char>, WarningView>>) -> Seq<WarningView>
    decreases outcomes.len(),
{
    if outcomes.len() == 0 {
        Seq::empty()
    } else {
        match outcomes.last() {
            Ok(_) => warnings_of(outcomes.drop_last()),
            Err(warning) => warnings_of(outcomes.drop_last()).push(warning),
        }
    }
}

/// Turns the parse of the file at `path` into the file's outcome.
pub fn judge(path: &str, parse: Result<PlayerDefinition, ParseError>) -> (r: Result<
    PlayerDefinition,
    Warning,
>)
    ensures
        result_view(r) == judged(path@, result_view(parse)),
        r is Ok ==> parse is Ok && r->Ok_0 == parse->Ok_0,
{
    match parse {
        Ok(definition) => Ok(definition),
        Err(ParseError::Syntax(cause)) => Err(Warning::Unparsable { path: path.to_owned(), cause }),
        Err(ParseError::MissingName) => Err(Warning::MissingName { path: path.to_owned() }),
    }
}

/// Reads the definition out of one candidate file.
pub fn examine(file: &CandidateFile) -> (r: Result<PlayerDefinition, Warning>)
    ensures
        result_view(r) == examined(file@),
        r matches Ok(definition) ==> definition.wf(),
{
    match &file.contents {
        Err(cause) => Err(Warning::Unreadable { path: file.path.clone(), cause: cause.clone() }),
        Ok(text) => judge(file.path.as_str(), parse_definition(text.as_str())),
    }
}

/// What discovery ends with: the players found, or why the run cannot go
/// on, and the warnings for the files that were skipped.
#[derive(Debug, PartialEq, Eq)]
pub struct Discovery {
    pub players: Result<Vec<PlayerDefinition>, ValidationError>,
    pub warnings: Vec<Warning>,
}

/// A [`Discovery`] with its strings as sequences of characters.
pub struct DiscoveryView {
    pub players: Result<Seq<Seq<char>>, ValidationError>,
    pub warnings: Seq<WarningView>,
}

impl View for Discovery {
    type V = DiscoveryView;

    open spec fn view(&self) -> DiscoveryView {
        DiscoveryView {
            players: match self.players {
                Ok(found) => Ok(views(found@)),
                Err(e) => Err(e),
            },
            warnings: views(self.warnings@),
        }
    }
}

/// What each of `files` yields, in their order.
pub open spec fn outcomes_of(files: Seq<CandidateFileView>) -> Seq<Result<Seq<char>, WarningView>> {
    files.map_values(|f: CandidateFileView| examined(f))
}

/// What the outcomes of the candidate files amount to: every name is a
/// player and every warning is kept; without a single name the run fails.
pub open spec fn gathered(outcomes: Seq<Result<Seq<char>, WarningView>>) -> DiscoveryView {
    DiscoveryView {
        players: if players_of(outcomes).len() == 0 {
            Err(ValidationError::NoPlayers)
        } else {
            Ok(players_of(outcomes))
        },
        warnings: warnings_of(outcomes),
    }
}

/// What discovery amounts to on a players directory, given as its
/// candidate files, or as `None` where it does not exist.
pub open spec fn discovered(directory: Option<Seq<CandidateFileView>>) -> DiscoveryView {
    match directory {
        None => DiscoveryView {
            players: Err(ValidationError::NoPlayerDir),
            warnings: Seq::empty(),
        },
        Some(files) => gathered(outcomes_of(files)),
    }
}

/// Collects the players and the warnings from the outcomes of the files.
pub fn gather(outcomes: Vec<Result<PlayerDefinition, Warning>>) -> (d: Discovery)
    ensures
        d@ == gathered(outcome_views(outcomes@)),
{
    let mut players: Vec<PlayerDefinition> = Vec::new();
    let mut warnings: Vec<Warning> = Vec::new();
    let ghost all = outcome_views(outcomes@);
    assert(all.take(0) =~= Seq::empty());
    assert(views(players@) =~= Seq::empty());
    assert(views(warnings@) =~= Seq::empty());
    for outcome in it: outcomes
        invariant
            all == outcome_views(it.seq()),
            views(players@) == players_of(all.take(it.index() as int)),
            views(warnings@) == warnings_of(all.take(it.index() as int)),
    {
        let ghost seen = all.take(it.index() + 1);
        assert(seen.drop_last() =~= all.take(it.index() as int));
        assert(seen.last() == result_view(outcome));
        match outcome {
            Ok(definition) => {
                let ghost before = views(players@);
                players.push(definition);
                assert(views(players@) =~= before.push(definition@));
            },
            Err(warning) => {
                let ghost before = views(warnings@);
                warnings.push(warning);
                assert(views(warnings@) =~= before.push(warning@));
            },
        }
    }
    assert(all.take(all.len() as int) =~= all);
    if players.len() == 0 {
        Discovery { players: Err(ValidationError::NoPlayers), warnings }
    } else {
        Discovery { players: Ok(players), warnings }
    }
}

/// A players directory as discovery sees it.
pub open spec fn directory_view(directory: Option<Vec<CandidateFile>>) -> Option<
    Seq<CandidateFileView>,
> {
    match directory {
        Some(files) => Some(views(files@)),
        None => None,
    }
}

/// Runs discovery on the players directory: `None` where the directory
/// does not exist, else its candidate files with what reading them gave.
/// A file that cannot be read or parsed is skipped with a warning; the run
/// fails only without the directory or without a single player.
pub fn discover(directory: Option<Vec<CandidateFile>>) -> (d: Discovery)
    ensures
        d@ == discovered(directory_view(directory)),
        directory is None <==> d.players == Err::<Vec<PlayerDefinition>, _>(
            ValidationError::NoPlayerDir,
        ),
        d.players matches Ok(found) ==> found.len() > 0 && forall|i: int|
            0 <= i < found.len() ==> (#[trigger] found[i]).wf(),
        d.players matches Err(e) ==> e == ValidationError::NoPlayerDir || e
            == ValidationError::NoPlayers,
{
    match directory {
        None => {
            let warnings: Vec<Warning> = Vec::new();
            assert(views(warnings@) =~= Seq::empty());
            Discovery { players: Err(ValidationError::NoPlayerDir), warnings }
        },
        Some(files) => {
            let ghost wanted = outcomes_of(views(files@));
            let mut outcomes: Vec<Result<PlayerDefinition, Warning>> = Vec::new();
            let mut i: usize = 0;
            while i < files.len()
                invariant
                    i <= files.len(),
                    wanted == outcomes_of(views(files@)),
                    outcome_views(outcomes@) =~= wanted.take(i as int),
                decreases files.len() - i,
            {
                let outcome = examine(&files[i]);
                let ghost before = outcome_views(outcomes@);
                outcomes.push(outcome);
                assert(wanted[i as int] == examined(files@[i as int]@));
                assert(outcome_views(outcomes@) =~= before.push(result_view(outcome)));
                i = i + 1;
            }
            assert(wanted.take(i as int) =~= wanted);
            let d = gather(outcomes);
            proof {
                lemma_players_are_named(views(files@));
                if d.players is Ok {
                    let found = d.players->Ok_0;
                    assert forall|k: int| 0 <= k < found.len() implies (
                    #[trigger] found[k]).wf() by {
                        assert(views(found@)[k] == found[k]@);
                    }
                }
            }
            d
        },
    }
}

/// Every player that discovery finds has a name that is not empty.
pub proof fn lemma_players_are_named(files: Seq<CandidateFileView>)
    ensures
        forall|i: int|
            0 <= i < players_of(outcomes_of(files)).len() ==> (#[trigger] players_of(
                outcomes_of(files),
            )[i]).len() > 0,
    decreases files.len(),
{
    if files.len() > 0 {
        lemma_players_are_named(files.drop_last());
        let outcomes = outcomes_of(files);
        let before = players_of(outcomes_of(files.drop_last()));
        assert(outcomes.drop_last() =~= outcomes_of(files.drop_last()));
        assert(outcomes.last() == examined(files.last()));
        assert forall|i: int| 0 <= i < players_of(outcomes).len() implies (#[trigger] players_of(
            outcomes,
        )[i]).len() > 0 by {
            if i < before.len() {
                assert(players_of(outcomes)[i] == before[i]);
            }
        }
    }
}

/// Every outcome is either a player or a warning: none is lost and none
/// counts twice.
pub proof fn lemma_every_file_counts(outcomes: Seq<Result<Seq<char>, WarningView>>)
    ensures
        players_of(outcomes).len() + warnings_of(outcomes).len() == outcomes.len(),
        players_of(outcomes).len() == outcomes.filter(
            |o: Result<Seq<char>, WarningView>| o is Ok,
        ).len(),
        warnings_of(outcomes).len() == outcomes.filter(
            |o: Result<Seq<char>, WarningView>| o is Err,
        ).len(),
    decreases outcomes.len(),
{
    reveal(Seq::filter);
    if outcomes.len() > 0 {
        lemma_every_file_counts(outcomes.drop_last());
    }
}

/// Players and warnings of two runs of outcomes in a row are those of the
/// first run, then those of the second.
pub proof fn lemma_outcomes_in_a_row(
    first: Seq<Result<Seq<char>, WarningView>>,
    second: Seq<Result<Seq<char>, WarningView>>,
)
    ensures
        players_of(first + second) == players_of(first) + players_of(second),
        warnings_of(first + second) == warnings_of(first) + warnings_of(second),
    decreases second.len(),
{
    if second.len() == 0 {
        assert(first + second =~= first);
        assert(players_of(first) + players_of(second) =~= players_of(first));
        assert(warnings_of(first) + warnings_of(second) =~= warnings_of(first));
    } else {
        let whole = first + second;
        assert(whole.drop_last() =~= first + second.drop_last());
        assert(whole.last() == second.last());
        lemma_outcomes_in_a_row(first, second.drop_last());
        match second.last() {
            Ok(name) => {
                assert(players_of(whole) =~= players_of(first) + players_of(second));
            },
            Err(warning) => {
                assert(warnings_of(whole) =~= warnings_of(first) + warnings_of(second));
            },
        }
    }
}

/// The names and the warnings that `files` yield.
spec fn found_on(files: Seq<CandidateFileView>) -> (Seq<Seq<char>>, Seq<WarningView>) {
    (players_of(outcomes_of(files)), warnings_of(outcomes_of(files)))
}

/// On a directory with `n` valid definition files and `m` files that are
/// unreadable, malformed or without a name, discovery finds exactly `n`
/// players and gives exactly `m` warnings; with no valid file it fails for
/// want of players, which is not the failure for want of the directory.
pub proof fn lemma_discovery_counts(files: Seq<CandidateFileView>, n: nat, m: nat)
    requires
        n == files.filter(|f: CandidateFileView| examined(f) is Ok).len(),
        m == files.filter(|f: CandidateFileView| examined(f) is Err).len(),
    ensures
        n + m == files.len(),
        discovered(Some(files)).warnings.len() == m,
        n > 0 ==> discovered(Some(files)).players is Ok && discovered(
            Some(files),
        ).players->Ok_0.len() == n,
        n == 0 ==> discovered(Some(files)).players == Err::<Seq<Seq<char>>, _>(
            ValidationError::NoPlayers,
        ),
        discovered(None).players == Err::<Seq<Seq<char>>, _>(ValidationError::NoPlayerDir),
    decreases files.len(),
{
    reveal(Seq::filter);
    if files.len() > 0 {
        let rest = files.drop_last();
        lemma_discovery_counts(
            rest,
            rest.filter(|f: CandidateFileView| examined(f) is Ok).len(),
            rest.filter(|f: CandidateFileView| examined(f) is Err).len(),
        );
        assert(outcomes_of(files).drop_last() =~= outcomes_of(rest));
    }
}

/// What discovery finds does not depend on the order in which the files
/// come: the same files in another order give the same warnings, each as
/// often, and either the same failure or the same players, each as often.
pub proof fn lemma_discovery_ignores_order(a: Seq<CandidateFileView>, b: Seq<CandidateFileView>)
    requires
        a.to_multiset() == b.to_multiset(),
    ensures
        discovered(Some(a)).warnings.to_multiset() == discovered(Some(b)).warnings.to_multiset(),
        discovered(Some(a)).warnings.len() == discovered(Some(b)).warnings.len(),
        match (discovered(Some(a)).players, discovered(Some(b)).players) {
            (Ok(first), Ok(second)) => first.to_multiset() == second.to_multiset() && first.len()
                == second.len(),
            (Err(first), Err(second)) => first == second,
            _ => false,
        },
{
    lemma_found_ignores_order(a, b);
}

/// The same files in another order yield the same names and the same
/// warnings, each as often.
proof fn lemma_found_ignores_order(a: Seq<CandidateFileView>, b: Seq<CandidateFileView>)
    requires
        a.to_multiset() == b.to_multiset(),
    ensures
        found_on(a).0.to_multiset() == found_on(b).0.to_multiset(),
        found_on(a).1.to_multiset() == found_on(b).1.to_multiset(),
        found_on(a).0.len() == found_on(b).0.len(),
        found_on(a).1.len() == found_on(b).1.len(),
    decreases a.len(),
{
    broadcast use group_to_multiset_ensures;

    if a.len() == 0 {
        assert(a.to_multiset().len() == a.len());
        assert(b.to_multiset().len() == b.len());
        assert(a =~= b);
    } else {
        let x = a.last();
        let shorter = a.drop_last();
        assert(a =~= shorter.push(x));
        assert(b.to_multiset().count(x) > 0);
        assert(b.contains(x));
        let j = choose|j: int| 0 <= j < b.len() && b[j] == x;
        let others = b.remove(j);
        assert(shorter.to_multiset() =~= a.to_multiset().remove(x));
        assert(others.to_multiset() =~= b.to_multiset().remove(x));
        lemma_found_ignores_order(shorter, others);

        let one = seq![x];
        let head = b.take(j);
        let tail = b.skip(j + 1);
        assert(b =~= head + one + tail);
        assert(others =~= head + tail);
        assert(outcomes_of(a) =~= outcomes_of(shorter) + outcomes_of(one));
        assert(outcomes_of(b) =~= outcomes_of(head) + outcomes_of(one) + outcomes_of(tail));
        assert(outcomes_of(others) =~= outcomes_of(head) + outcomes_of(tail));
        lemma_outcomes_in_a_row(outcomes_of(shorter), outcomes_of(one));
        lemma_outcomes_in_a_row(outcomes_of(head), outcomes_of(one));
        lemma_outcomes_in_a_row(outcomes_of(head) + outcomes_of(one), outcomes_of(tail));
        lemma_outcomes_in_a_row(outcomes_of(head), outcomes_of(tail));

        let (short_names, short_warnings) = found_on(shorter);
        let (one_names, one_warnings) = found_on(one);
        let (head_names, head_warnings) = found_on(head);
        let (tail_names, tail_warnings) = found_on(tail);
        lemma_multiset_commutative(short_names, one_names);
        lemma_multiset_commutative(head_names, one_names);
        lemma_multiset_commutative(head_names + one_names, tail_names);
        lemma_multiset_commutative(head_names, tail_names);
        assert(found_on(b).0.to_multiset() =~= found_on(others).0.to_multiset().add(
            one_names.to_multiset(),
        ));
        lemma_multiset_commutative(short_warnings, one_warnings);
        lemma_multiset_commutative(head_warnings, one_warnings);
        lemma_multiset_commutative(head_warnings + one_warnings, tail_warnings);
        lemma_multiset_commutative(head_warnings, tail_warnings);
        assert(found_on(b).1.to_multiset() =~= found_on(others).1.to_multiset().add(
            one_warnings.to_multiset(),
        ));
    }
    assert(found_on(a).0.to_multiset().len() == found_on(a).0.len());
    assert(found_on(b).0.to_multiset().len() == found_on(b).0.len());
    assert(found_on(a).1.to_multiset().len() == found_on(a).1.len());
    assert(found_on(b).1.to_multiset().len() == found_on(b).1.len());
}

} // verus!
