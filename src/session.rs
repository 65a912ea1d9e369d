//! A build session: the order of the steps of a build, and the decision
//! at each of them.
//!
//! The caller performs each `Action` the session asks for and reports the
//! outcome as an `Event`. The session never touches the file system, the
//! version-control client or the build driver itself.
use vstd::prelude::*;

use crate::error::BuildError;
use crate::plan::BuildPlan;

verus! {

/// Where a session stands.
#[derive(Debug, Clone, Copy, PartialEq, Eq, Structural)]
pub enum Stage {
    Start,
    /// Waiting to hear whether the source directory exists.
    Inspecting,
    /// Waiting for the tool-owned source directory to be removed.
    Removing,
    /// Waiting for the clone into the source directory.
    Cloning,
    /// Waiting for the submodules of the fresh clone to be updated.
    Updating,
    /// Waiting for the native build driver.
    Driving,
    Done,
}

/// What the caller reports back.
#[derive(Debug, PartialEq)]
pub enum Event {
    Begin,
    /// Whether the source directory exists.
    SourceChecked(bool),
    Removed,
    RemoveFailed(String),
    Cloned,
    CloneFailed(git2::Error),
    SubmodulesUpdated,
    SubmoduleFailed(git2::Error),
    DriverFinished,
    DriverFailed(String),
}

/// What the session asks the caller to do next.
#[derive(Debug, PartialEq)]
pub enum Action {
    /// Tell whether the plan's source directory exists.
    CheckSource,
    /// Remove the plan's source directory and everything in it.
    RemoveSource,
    /// Clone the plan's repository at its branch into its source directory.
    Clone,
    /// Initialise and update every submodule of the fresh clone, recursively.
    UpdateSubmodules,
    /// Run the native build driver as the plan says.
    RunDriver,
    /// The build is complete.
    Finish,
    /// The build failed, for the reason given.
    Fail(BuildError),
}

/// The next stage and action when a session in `stage` whose plan owns its
/// source directory (`owns`) and asks for a clean start (`clean`) hears
/// `event`; `None` where `stage` expects no such event.
pub open spec fn transition(owns: bool, clean: bool, stage: Stage, event: Event) -> Option<(Stage, Action)> {
    match (stage, event) {
        (Stage::Start, Event::Begin) => Some((Stage::Inspecting, Action::CheckSource)),
        (Stage::Inspecting, Event::SourceChecked(exists)) =>
            if !exists {
                Some((Stage::Cloning, Action::Clone))
            } else if owns && clean {
                Some((Stage::Removing, Action::RemoveSource))
            } else {
                Some((Stage::Driving, Action::RunDriver))
            },
        (Stage::Removing, Event::Removed) => Some((Stage::Cloning, Action::Clone)),
        (Stage::Removing, Event::RemoveFailed(m)) => Some((Stage::Done, Action::Fail(BuildError::Filesystem(m)))),
        (Stage::Cloning, Event::Cloned) => Some((Stage::Updating, Action::UpdateSubmodules)),
        (Stage::Cloning, Event::CloneFailed(e)) => Some((Stage::Done, Action::Fail(BuildError::Git2(e)))),
        (Stage::Updating, Event::SubmodulesUpdated) => Some((Stage::Driving, Action::RunDriver)),
        (Stage::Updating, Event::SubmoduleFailed(e)) => Some((Stage::Done, Action::Fail(BuildError::Git2(e)))),
        (Stage::Driving, Event::DriverFinished) => Some((Stage::Done, Action::Finish)),
        (Stage::Driving, Event::DriverFailed(m)) => Some((Stage::Done, Action::Fail(BuildError::BuildDriver(m)))),
        _ => None,
    }
}

/// The session of one build.
pub struct Session {
    pub plan: BuildPlan,
    pub stage: Stage,
}

impl Session {
    pub fn new(plan: BuildPlan) -> (r: Session)
        ensures
            r.plan == plan,
            r.stage == Stage::Start,
    {
        Session { plan, stage: Stage::Start }
    }

    /// Whether the session expects `event` now.
    pub fn accepts(&self, event: &Event) -> (r: bool)
        ensures
            r == transition(self.plan.owns_source, self.plan.clean, self.stage, *event) is Some,
    {
        match (self.stage, event) {
            (Stage::Start, Event::Begin) => true,
            (Stage::Inspecting, Event::SourceChecked(_)) => true,
            (Stage::Removing, Event::Removed) => true,
            (Stage::Removing, Event::RemoveFailed(_)) => true,
            (Stage::Cloning, Event::Cloned) => true,
            (Stage::Cloning, Event::CloneFailed(_)) => true,
            (Stage::Updating, Event::SubmodulesUpdated) => true,
            (Stage::Updating, Event::SubmoduleFailed(_)) => true,
            (Stage::Driving, Event::DriverFinished) => true,
            (Stage::Driving, Event::DriverFailed(_)) => true,
            _ => false,
        }
    }

    /// Takes in `event` and says what to do next.
    pub fn step(&mut self, event: Event) -> (a: Action)
        requires
            transition(old(self).plan.owns_source, old(self).plan.clean, old(self).stage, event) is Some,
        ensures
            final(self).plan == old(self).plan,
            transition(old(self).plan.owns_source, old(self).plan.clean, old(self).stage, event)
                == Some((final(self).stage, a)),
    {
        let (next, action) = match (self.stage, event) {
            (Stage::Start, Event::Begin) => (Stage::Inspecting, Action::CheckSource),
            (Stage::Inspecting, Event::SourceChecked(exists)) => {
                if !exists {
                    (Stage::Cloning, Action::Clone)
                } else if self.plan.owns_source && self.plan.clean {
                    (Stage::Removing, Action::RemoveSource)
                } else {
                    (Stage::Driving, Action::RunDriver)
                }
            },
            (Stage::Removing, Event::Removed) => (Stage::Cloning, Action::Clone),
            (Stage::Removing, Event::RemoveFailed(m)) => (Stage::Done, Action::Fail(BuildError::Filesystem(m))),
            (Stage::Cloning, Event::Cloned) => (Stage::Updating, Action::UpdateSubmodules),
            (Stage::Cloning, Event::CloneFailed(e)) => (Stage::Done, Action::Fail(BuildError::Git2(e))),
            (Stage::Updating, Event::SubmodulesUpdated) => (Stage::Driving, Action::RunDriver),
            (Stage::Updating, Event::SubmoduleFailed(e)) => (Stage::Done, Action::Fail(BuildError::Git2(e))),
            (Stage::Driving, Event::DriverFinished) => (Stage::Done, Action::Finish),
            (Stage::Driving, Event::DriverFailed(m)) => (Stage::Done, Action::Fail(BuildError::BuildDriver(m))),
            (_, _) => unreached(),
        };
        self.stage = next;
        action
    }
}

} // verus!
