//! What is done with one enumerated monitor, and with a whole list of them.

use crate::ident::{is_blank, is_blank_id};
use vstd::prelude::*;

verus! {

/// Why a monitor was left alone.
#[derive(Clone, Copy, Debug, PartialEq, Eq, Structural)]
pub enum SkipReason {
    /// Its identifier is empty or blank.
    EmptyId,
    /// A target was given and its identifier is another one.
    NoMatch,
}

/// The verdict on one identifier.
#[derive(Clone, Copy, Debug, PartialEq, Eq, Structural)]
pub enum Decision {
    Apply,
    Skip(SkipReason),
}

/// What happened to the monitor at one ordinal of the service's list.
#[derive(Debug, PartialEq, Eq)]
pub enum MonitorOutcome {
    Applied { index: u32, id: String },
    Skipped { index: u32, reason: SkipReason },
}

/// A `MonitorOutcome` with its identifier as a sequence of characters.
pub enum OutcomeModel {
    Applied { index: u32, id: Seq<char> },
    Skipped { index: u32, reason: SkipReason },
}

impl View for MonitorOutcome {
    type V = OutcomeModel;

    open spec fn view(&self) -> OutcomeModel {
        match *self {
            MonitorOutcome::Applied { index, id } => OutcomeModel::Applied { index, id: id@ },
            MonitorOutcome::Skipped { index, reason } => OutcomeModel::Skipped { index, reason },
        }
    }
}

/// The target as a sequence of characters, where there is one.
pub open spec fn target_model(target: Option<String>) -> Option<Seq<char>> {
    match target {
        Some(id) => Some(id@),
        None => None,
    }
}

/// The outcomes of a list, each by its view.
pub open spec fn outcome_models(outcomes: Seq<MonitorOutcome>) -> Seq<OutcomeModel> {
    Seq::new(outcomes.len(), |i: int| outcomes[i]@)
}

/// The rule for one identifier. A blank one is skipped whatever the target.
/// Any other is applied where no target is given or the target is this very
/// identifier, and skipped as no match otherwise.
pub open spec fn decision(target: Option<Seq<char>>, id: Seq<char>) -> Decision {
    if is_blank(id) {
        Decision::Skip(SkipReason::EmptyId)
    } else if target is None || target == Some(id) {
        Decision::Apply
    } else {
        Decision::Skip(SkipReason::NoMatch)
    }
}

/// The outcome that the rule gives the monitor at `index`, once the
/// wallpaper has been set where the rule says so.
pub open spec fn outcome_for(target: Option<Seq<char>>, index: u32, id: Seq<char>) -> OutcomeModel {
    match decision(target, id) {
        Decision::Apply => OutcomeModel::Applied { index, id },
        Decision::Skip(reason) => OutcomeModel::Skipped { index, reason },
    }
}

/// The outcomes of a whole list of identifiers, in the order of the list.
pub open spec fn plan(target: Option<Seq<char>>, ids: Seq<Seq<char>>) -> Seq<OutcomeModel> {
    Seq::new(ids.len(), |i: int| outcome_for(target, i as u32, ids[i]))
}

/// Decides what to do with the monitor that `id` names.
pub fn decide(target: &Option<String>, id: &String) -> (verdict: Decision)
    ensures
        verdict == decision(target_model(*target), id@),
{
    if is_blank_id(id.as_str()) {
        Decision::Skip(SkipReason::EmptyId)
    } else {
        match target {
            None => Decision::Apply,
            Some(wanted) => {
                if *id == *wanted {
                    Decision::Apply
                } else {
                    Decision::Skip(SkipReason::NoMatch)
                }
            },
        }
    }
}

/// A blank identifier is skipped as empty at every place of every list,
/// whatever the target.
pub proof fn lemma_blank_is_skipped(target: Option<Seq<char>>, ids: Seq<Seq<char>>, i: int)
    requires
        0 <= i < ids.len(),
        is_blank(ids[i]),
    ensures
        decision(target, ids[i]) == Decision::Skip(SkipReason::EmptyId),
        plan(target, ids)[i] == (OutcomeModel::Skipped {
            index: i as u32,
            reason: SkipReason::EmptyId,
        }),
{
}

/// Without a target every identifier that is not blank is applied; none is
/// skipped as no match, blank or not.
pub proof fn lemma_no_target_applies_all(ids: Seq<Seq<char>>, i: int)
    requires
        0 <= i < ids.len(),
    ensures
        !is_blank(ids[i]) ==> plan(None, ids)[i] == (OutcomeModel::Applied {
            index: i as u32,
            id: ids[i],
        }),
        plan(None, ids)[i] != (OutcomeModel::Skipped {
            index: i as u32,
            reason: SkipReason::NoMatch,
        }),
{
}

/// With a target, an identifier that is not blank is applied exactly when it
/// is the target, character for character, and is skipped as no match
/// otherwise.
pub proof fn lemma_target_applies_equal_only(wanted: Seq<char>, ids: Seq<Seq<char>>, i: int)
    requires
        0 <= i < ids.len(),
        !is_blank(ids[i]),
    ensures
        ids[i] == wanted ==> plan(Some(wanted), ids)[i] == (OutcomeModel::Applied {
            index: i as u32,
            id: ids[i],
        }),
        ids[i] != wanted ==> plan(Some(wanted), ids)[i] == (OutcomeModel::Skipped {
            index: i as u32,
            reason: SkipReason::NoMatch,
        }),
{
}

} // verus!
