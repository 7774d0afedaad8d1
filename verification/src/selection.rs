//! Settling which of the discovered players are launched. The user is
//! asked by the caller, between the steps taken here.

use vstd::prelude::*;
use vstd::string::*;

use crate::definition::PlayerDefinition;
use crate::error::ValidationError;
use crate::model::views;
use crate::report::{Warning, WarningView};

verus! {

/// Where the selection stands after a step.
#[derive(Debug, Clone, PartialEq, Eq)]
pub enum Resolution {
    /// The selection is settled: these identities, in this order.
    Selected(Vec<String>),
    /// The user is to choose among the discovered identities.
    Ask,
    /// The user is to be given the warning and to choose again.
    AskAgain(Warning),
}

/// A [`Resolution`] with its strings as sequences of characters.
pub enum ResolutionView {
    Selected(Seq<Seq<char>>),
    Ask,
    AskAgain(WarningView),
}

impl View for Resolution {
    type V = ResolutionView;

    open spec fn view(&self) -> ResolutionView {
        match self {
            Resolution::Selected(names) => ResolutionView::Selected(views(names@)),
            Resolution::Ask => ResolutionView::Ask,
            Resolution::AskAgain(warning) => ResolutionView::AskAgain(warning@),
        }
    }
}

/// Whether `selected` is a selection from `names`: not empty, and made of
/// identities that were discovered.
pub open spec fn is_selection(selected: Seq<Seq<char>>, names: Seq<Seq<char>>) -> bool {
    &&& selected.len() > 0
    &&& forall|i: int| 0 <= i < selected.len() ==> names.contains(#[trigger] selected[i])
}

/// The first step on the discovered identities: a single one is selected
/// without asking, several are put to the user, and none is a failure.
pub open spec fn resolved(names: Seq<Seq<char>>) -> Result<ResolutionView, ValidationError> {
    if names.len() == 0 {
        Err(ValidationError::NoPlayers)
    } else if names.len() == 1 {
        Ok(ResolutionView::Selected(names))
    } else {
        Ok(ResolutionView::Ask)
    }
}

/// The step after the user's choice, given as indices into `names`: an
/// empty choice is answered with a warning and a new question, any other
/// selects the identities at the indices, in the order chosen.
pub open spec fn picked(names: Seq<Seq<char>>, picks: Seq<usize>) -> ResolutionView {
    if picks.len() == 0 {
        ResolutionView::AskAgain(WarningView::EmptySelection)
    } else {
        ResolutionView::Selected(Seq::new(picks.len(), |i: int| names[picks[i] as int]))
    }
}

/// The identities of the discovered players, in their order: what the
/// user is given to choose from.
pub fn identities(discovered: &Vec<PlayerDefinition>) -> (names: Vec<String>)
    ensures
        views(names@) == views(discovered@),
{
    let mut names: Vec<String> = Vec::new();
    let mut i: usize = 0;
    while i < discovered.len()
        invariant
            i <= discovered.len(),
            views(names@) =~= views(discovered@).take(i as int),
        decreases discovered.len() - i,
    {
        let ghost before = views(names@);
        names.push(discovered[i].name.clone());
        assert(views(names@) =~= before.push(discovered@[i as int]@));
        i = i + 1;
    }
    assert(views(discovered@).take(i as int) =~= views(discovered@));
    names
}

/// Takes the first step of the selection.
pub fn resolve(discovered: &Vec<PlayerDefinition>) -> (r: Result<Resolution, ValidationError>)
    ensures
        match r {
            Ok(step) => resolved(views(discovered@)) == Ok::<_, ValidationError>(step@),
            Err(e) => resolved(views(discovered@)) == Err::<ResolutionView, _>(e),
        },
{
    if discovered.len() == 0 {
        Err(ValidationError::NoPlayers)
    } else if discovered.len() == 1 {
        Ok(Resolution::Selected(identities(discovered)))
    } else {
        Ok(Resolution::Ask)
    }
}

/// Takes the step that follows the user's choice.
pub fn pick(discovered: &Vec<PlayerDefinition>, picks: &Vec<usize>) -> (step: Resolution)
    requires
        forall|i: int| 0 <= i < picks.len() ==> picks[i] < discovered.len(),
    ensures
        step@ == picked(views(discovered@), picks@),
{
    if picks.len() == 0 {
        return Resolution::AskAgain(Warning::EmptySelection);
    }
    let ghost wanted = Seq::new(picks.len() as nat, |i: int| views(discovered@)[picks[i] as int]);
    let mut names: Vec<String> = Vec::new();
    let mut i: usize = 0;
    while i < picks.len()
        invariant
            i <= picks.len(),
            forall|k: int| 0 <= k < picks.len() ==> picks[k] < discovered.len(),
            wanted == Seq::new(picks.len() as nat, |i: int| views(discovered@)[picks[i] as int]),
            views(names@) =~= wanted.take(i as int),
        decreases picks.len() - i,
    {
        let ghost before = views(names@);
        let at: usize = picks[i];
        names.push(discovered[at].name.clone());
        assert(views(names@) =~= before.push(discovered@[at as int]@));
        i = i + 1;
    }
    assert(wanted.take(i as int) =~= wanted);
    Resolution::Selected(names)
}

/// No step settles on an empty selection, nor on an identity that was not
/// discovered; a single discovered player is selected without asking; and
/// an empty choice leads to asking again.
pub proof fn lemma_selection_is_sound(names: Seq<Seq<char>>, picks: Seq<usize>)
    requires
        forall|i: int| 0 <= i < picks.len() ==> picks[i] < names.len(),
    ensures
        resolved(names) matches Ok(ResolutionView::Selected(chosen)) ==> is_selection(
            chosen,
            names,
        ),
        picked(names, picks) matches ResolutionView::Selected(chosen) ==> is_selection(
            chosen,
            names,
        ),
        names.len() == 1 ==> resolved(names) == Ok::<_, ValidationError>(
            ResolutionView::Selected(names),
        ),
        picks.len() == 0 ==> picked(names, picks) == ResolutionView::AskAgain(
            WarningView::EmptySelection,
        ),
        picks.len() > 0 ==> picked(names, picks) is Selected,
{
    if names.len() == 1 {
        assert(names.contains(names[0]));
    }
    if picks.len() > 0 {
        let chosen = Seq::new(picks.len(), |i: int| names[picks[i] as int]);
        assert forall|i: int| 0 <= i < chosen.len() implies names.contains(
            #[trigger] chosen[i],
        ) by {
            assert(names[picks[i] as int] == chosen[i]);
        }
    }
}

} // verus!
