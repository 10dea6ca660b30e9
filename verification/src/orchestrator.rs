//! The hit/miss procedure. One invocation is one run of a small state
//! machine: the caller performs the action that a transition asks for and
//! reports its outcome as the next event. The machine itself touches
//! nothing; every decision is taken here, from scratch, on each run.
//!
//! Only the command's standard output is cached, and its exit status plays
//! no part: what a failing command wrote is published under the key and
//! replayed like any other output.

use crate::freshness::{check_freshness, freshness, Timestamp};
use vstd::prelude::*;

verus! {

/// The name of the cache directory inside the home directory.
pub const CACHE_DIRECTORY: &'static str = ".cmd_cache";

/// The classes of fatal errors. None is retried or swallowed: each ends the
/// run.
#[derive(Clone, Copy, Debug, PartialEq, Eq)]
pub enum Failure {
    /// The cache directory is missing and cannot be created, or its path is
    /// taken by something that is no directory.
    Configuration,
    /// No staging artifact could be made, or the command could not be
    /// spawned or waited for.
    Execution,
    /// The staging artifact could not be renamed to its key.
    Publication,
    /// The artifact could not be opened or copied to the output.
    Stream,
}

/// Where a run stands. But for `Start`, `Done` and `Failed`, each state
/// waits for the outcome of the action that led into it.
#[derive(Clone, Copy, Debug, PartialEq, Eq)]
pub enum State {
    /// Nothing has happened yet.
    Start,
    /// The cache directory is being looked up or created.
    Resolving,
    /// The artifact's time of modification and the clock are being read.
    Checking,
    /// Miss: a staging artifact is being created in the cache directory.
    Staging,
    /// Miss: the command runs, its standard output bound to the staging
    /// artifact.
    Running,
    /// Miss: the staging artifact is being renamed to the key.
    Publishing,
    /// Hit, or miss after publication: the artifact is being copied to the
    /// output.
    Streaming,
    /// The artifact was written out in full.
    Done,
    /// The run was aborted.
    Failed { failure: Failure },
}

/// What the caller reports.
#[derive(Clone, Copy, Debug, PartialEq, Eq)]
pub enum Event {
    /// The run begins.
    Begin,
    /// The action under way has been carried out. For the command this means
    /// that it terminated, with whatever exit status.
    Completed,
    /// The action under way could not be carried out.
    Failed,
    /// The probe's answer: when the artifact was last modified, or nothing
    /// where no regular file stands at its path, and the clock as read for
    /// this check.
    Probed { modified: Option<Timestamp>, now: Timestamp },
}

/// What the caller is asked to do next.
#[derive(Clone, Copy, Debug, PartialEq, Eq)]
pub enum Action {
    /// Make sure that the cache directory exists, creating it where it is
    /// missing. Answer `Completed` or `Failed`.
    EnsureDirectory,
    /// Read the artifact's time of modification and the clock. Answer
    /// `Probed`.
    Probe,
    /// Announce that the command is really run, and create a staging
    /// artifact inside the cache directory. Answer `Completed` or `Failed`.
    Stage,
    /// Spawn the command with empty standard input and with standard output
    /// bound to the staging artifact, and wait for it. Answer `Completed`
    /// once it has terminated, `Failed` where it could not be spawned or
    /// waited for.
    Execute,
    /// Rename the staging artifact to the key, in one step. Answer
    /// `Completed` or `Failed`.
    Publish,
    /// Copy the artifact that stands under the key to the output. On a hit
    /// `cached` is the time at which that artifact was last modified, to be
    /// announced; after a publication it is nothing. Answer `Completed` or
    /// `Failed`.
    Stream { cached: Option<Timestamp> },
    /// The run is over: nothing is left to do.
    Finish,
    /// The run is over: give up with this error.
    Abort { failure: Failure },
}

/// One transition: the state that follows and the action to take.
#[derive(Clone, Copy, Debug, PartialEq, Eq)]
pub struct Transition {
    pub next: State,
    pub action: Action,
}

/// The transition that gives up with `failure`.
pub open spec fn abort(failure: Failure) -> Transition {
    Transition { next: State::Failed { failure }, action: Action::Abort { failure } }
}

/// The machine. An event that the state does not wait for has no
/// transition; `Done` and `Failed` wait for none.
pub open spec fn transition(state: State, event: Event, window_secs: u64) -> Option<Transition> {
    match (state, event) {
        (State::Start, Event::Begin) => Some(
            Transition { next: State::Resolving, action: Action::EnsureDirectory },
        ),
        (State::Resolving, Event::Completed) => Some(
            Transition { next: State::Checking, action: Action::Probe },
        ),
        (State::Resolving, Event::Failed) => Some(abort(Failure::Configuration)),
        (State::Checking, Event::Probed { modified, now }) => Some(
            match freshness(modified, window_secs, now) {
                Some(cached) => Transition {
                    next: State::Streaming,
                    action: Action::Stream { cached: Some(cached) },
                },
                None => Transition { next: State::Staging, action: Action::Stage },
            },
        ),
        (State::Staging, Event::Completed) => Some(
            Transition { next: State::Running, action: Action::Execute },
        ),
        (State::Staging, Event::Failed) => Some(abort(Failure::Execution)),
        (State::Running, Event::Completed) => Some(
            Transition { next: State::Publishing, action: Action::Publish },
        ),
        (State::Running, Event::Failed) => Some(abort(Failure::Execution)),
        (State::Publishing, Event::Completed) => Some(
            Transition { next: State::Streaming, action: Action::Stream { cached: None } },
        ),
        (State::Publishing, Event::Failed) => Some(abort(Failure::Publication)),
        (State::Streaming, Event::Completed) => Some(
            Transition { next: State::Done, action: Action::Finish },
        ),
        (State::Streaming, Event::Failed) => Some(abort(Failure::Stream)),
        _ => None,
    }
}

/// Takes one step of a run under the given freshness window.
pub fn step(state: State, event: Event, window_secs: u64) -> (taken: Option<Transition>)
    ensures
        taken == transition(state, event, window_secs),
{
    match state {
        State::Start => match event {
            Event::Begin => proceed(State::Resolving, Action::EnsureDirectory),
            _ => None,
        },
        State::Resolving => outcome(
            event,
            State::Checking,
            Action::Probe,
            Failure::Configuration,
        ),
        State::Checking => match event {
            Event::Probed { modified, now } => match check_freshness(modified, window_secs, now) {
                Some(cached) => proceed(State::Streaming, Action::Stream { cached: Some(cached) }),
                None => proceed(State::Staging, Action::Stage),
            },
            _ => None,
        },
        State::Staging => outcome(event, State::Running, Action::Execute, Failure::Execution),
        State::Running => outcome(event, State::Publishing, Action::Publish, Failure::Execution),
        State::Publishing => outcome(
            event,
            State::Streaming,
            Action::Stream { cached: None },
            Failure::Publication,
        ),
        State::Streaming => outcome(event, State::Done, Action::Finish, Failure::Stream),
        State::Done => None,
        State::Failed { .. } => None,
    }
}

/// The transition into `next` that asks for `action`.
pub open spec fn proceeding(next: State, action: Action) -> Option<Transition> {
    Some(Transition { next, action })
}

/// The transition that follows the outcome of an action: onwards where it
/// was carried out, to an abort with `failure` where it was not.
pub open spec fn settled(event: Event, next: State, action: Action, failure: Failure) -> Option<
    Transition,
> {
    match event {
        Event::Completed => proceeding(next, action),
        Event::Failed => Some(abort(failure)),
        _ => None,
    }
}

fn proceed(next: State, action: Action) -> (taken: Option<Transition>)
    ensures
        taken == proceeding(next, action),
{
    Some(Transition { next, action })
}

fn outcome(event: Event, next: State, action: Action, failure: Failure) -> (taken: Option<
    Transition,
>)
    ensures
        taken == settled(event, next, action, failure),
{
    match event {
        Event::Completed => proceed(next, action),
        Event::Failed => proceed(State::Failed { failure }, Action::Abort { failure }),
        _ => None,
    }
}

} // verus!
