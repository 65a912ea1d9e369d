//! What holds of every run of a build session.
use vstd::prelude::*;

use crate::config::BuildConfig;
use crate::error::BuildError;
use crate::plan::owns_source_of;
use crate::session::{transition, Action, Event, Stage};

verus! {

/// The actions a session in `stage` asks for as it hears `events` in turn,
/// up to the first event it does not expect.
pub open spec fn run(owns: bool, clean: bool, stage: Stage, events: Seq<Event>) -> Seq<Action>
    decreases events.len(),
{
    if events.len() == 0 {
        seq![]
    } else {
        match transition(owns, clean, stage, events[0]) {
            Some((next, a)) => seq![a] + run(owns, clean, next, events.drop_first()),
            None => seq![],
        }
    }
}

/// Whether `run` holds `action` anywhere.
pub open spec fn asks_for(actions: Seq<Action>, action: Action) -> bool {
    exists|i: int| 0 <= i < actions.len() && actions[i] == action
}

/// One step of `run`: the first action, then the run from the next stage.
proof fn lemma_run_cons(owns: bool, clean: bool, stage: Stage, events: Seq<Event>, action: Action)
    requires
        events.len() > 0,
        transition(owns, clean, stage, events[0]) is Some,
    ensures
        ({
            let (next, a) = transition(owns, clean, stage, events[0])->Some_0;
            &&& run(owns, clean, stage, events) == seq![a] + run(owns, clean, next, events.drop_first())
            &&& asks_for(run(owns, clean, stage, events), action) <==> (a == action || asks_for(
                run(owns, clean, next, events.drop_first()),
                action,
            ))
        }),
{
    let (next, a) = transition(owns, clean, stage, events[0])->Some_0;
    let whole = run(owns, clean, stage, events);
    let rest = run(owns, clean, next, events.drop_first());
    assert(whole == seq![a] + rest);
    if asks_for(whole, action) {
        let i = choose|i: int| 0 <= i < whole.len() && whole[i] == action;
        if i > 0 {
            assert(rest[i - 1] == action);
        }
    }
    if asks_for(rest, action) {
        let i = choose|i: int| 0 <= i < rest.len() && rest[i] == action;
        assert(whole[i + 1] == action);
    }
    if a == action {
        assert(whole[0] == action);
    }
}

proof fn lemma_no_clone_once_acquired(owns: bool, clean: bool, stage: Stage, events: Seq<Event>)
    requires
        stage == Stage::Cloning || stage == Stage::Updating || stage == Stage::Driving || stage == Stage::Done,
    ensures
        !asks_for(run(owns, clean, stage, events), Action::Clone),
    decreases events.len(),
{
    if events.len() > 0 && transition(owns, clean, stage, events[0]) is Some {
        let (next, _) = transition(owns, clean, stage, events[0])->Some_0;
        lemma_run_cons(owns, clean, stage, events, Action::Clone);
        lemma_no_clone_once_acquired(owns, clean, next, events.drop_first());
    }
}

/// A source directory that the caller supplied is never removed: whatever
/// the caller reports, a session for such a configuration, in any stage,
/// never asks for the source directory to be removed, `clean` or not.
pub proof fn lemma_caller_source_never_removed(config: BuildConfig, stage: Stage, events: Seq<Event>)
    requires
        config.repository_path is Some,
    ensures
        !asks_for(run(owns_source_of(config), config.clean, stage, events), Action::RemoveSource),
    decreases events.len(),
{
    let owns = owns_source_of(config);
    if events.len() > 0 && transition(owns, config.clean, stage, events[0]) is Some {
        let (next, _) = transition(owns, config.clean, stage, events[0])->Some_0;
        lemma_run_cons(owns, config.clean, stage, events, Action::RemoveSource);
        lemma_caller_source_never_removed(config, next, events.drop_first());
    }
}

/// An existing checkout is reused: without `clean`, once the source
/// directory is reported present, the session goes to the build driver and
/// never asks for a clone, so a second build after a first one clones nothing.
pub proof fn lemma_existing_source_reused(config: BuildConfig, events: Seq<Event>)
    requires
        !config.clean,
        events.len() >= 2,
        events[0] == Event::Begin,
        events[1] == Event::SourceChecked(true),
    ensures
        run(owns_source_of(config), config.clean, Stage::Start, events).len() >= 2,
        run(owns_source_of(config), config.clean, Stage::Start, events)[1] == Action::RunDriver,
        !asks_for(run(owns_source_of(config), config.clean, Stage::Start, events), Action::Clone),
{
    let owns = owns_source_of(config);
    let clean = config.clean;
    let tail = events.drop_first();
    assert(tail[0] == Event::SourceChecked(true));
    lemma_run_cons(owns, clean, Stage::Start, events, Action::Clone);
    lemma_run_cons(owns, clean, Stage::Inspecting, tail, Action::Clone);
    lemma_no_clone_once_acquired(owns, clean, Stage::Driving, tail.drop_first());
}

/// A tool-owned source directory that is present is removed before the
/// clone: with `clean`, the session asks for the removal right after the
/// check, and asks for a clone only next, once the removal is reported done.
pub proof fn lemma_clean_before_clone(config: BuildConfig, events: Seq<Event>)
    requires
        config.repository_path is None,
        config.clean,
        events.len() >= 2,
        events[0] == Event::Begin,
        events[1] == Event::SourceChecked(true),
    ensures
        run(owns_source_of(config), config.clean, Stage::Start, events).len() >= 2,
        run(owns_source_of(config), config.clean, Stage::Start, events)[1] == Action::RemoveSource,
        forall|i: int|
            0 <= i < run(owns_source_of(config), config.clean, Stage::Start, events).len()
                && run(owns_source_of(config), config.clean, Stage::Start, events)[i] == Action::Clone
                ==> i == 2 && events[2] == Event::Removed,
{
    let owns = owns_source_of(config);
    let clean = config.clean;
    let whole = run(owns, clean, Stage::Start, events);
    let tail = events.drop_first();
    let tail2 = tail.drop_first();
    assert(tail[0] == Event::SourceChecked(true));
    lemma_run_cons(owns, clean, Stage::Start, events, Action::Clone);
    lemma_run_cons(owns, clean, Stage::Inspecting, tail, Action::Clone);
    let after = run(owns, clean, Stage::Removing, tail2);
    assert(whole == seq![Action::CheckSource, Action::RemoveSource] + after);
    assert forall|i: int| 0 <= i < whole.len() && whole[i] == Action::Clone implies i == 2
        && events[2] == Event::Removed by {
        assert(i >= 2);
        assert(after[i - 2] == Action::Clone);
        assert(tail2.len() > 0);
        assert(transition(owns, clean, Stage::Removing, tail2[0]) is Some);
        let (next, a) = transition(owns, clean, Stage::Removing, tail2[0])->Some_0;
        lemma_run_cons(owns, clean, Stage::Removing, tail2, Action::Clone);
        if tail2[0] == Event::Removed {
            assert(next == Stage::Cloning);
            lemma_no_clone_once_acquired(owns, clean, next, tail2.drop_first());
            if i > 2 {
                assert(run(owns, clean, next, tail2.drop_first())[i - 3] == Action::Clone);
            }
        } else {
            assert(next == Stage::Done);
            lemma_no_clone_once_acquired(owns, clean, next, tail2.drop_first());
            assert(a != Action::Clone);
            if i > 2 {
                assert(run(owns, clean, next, tail2.drop_first())[i - 3] == Action::Clone);
            }
        }
    }
}

/// A failed clone fails the build with the version-control error, and the
/// session then asks for nothing more: no build driver, no success.
pub proof fn lemma_clone_failure_ends_build(config: BuildConfig, error: git2::Error, later: Seq<Event>)
    ensures
        run(owns_source_of(config), config.clean, Stage::Cloning, seq![Event::CloneFailed(error)] + later)
            == seq![Action::Fail(BuildError::Git2(error))],
{
    let owns = owns_source_of(config);
    let events = seq![Event::CloneFailed(error)] + later;
    assert(events[0] == Event::CloneFailed(error));
    assert(events.drop_first() == later);
    let rest = run(owns, config.clean, Stage::Done, later);
    assert(rest == Seq::<Action>::empty());
}

} // verus!
