//! Runs of the hit/miss procedure as a whole: the actions that a sequence of
//! reported events leads to, the order that every run keeps, and what
//! follows from it for hits, misses and failures.

use crate::freshness::{fresh, freshness, Timestamp};
use crate::orchestrator::{transition, Action, Event, Failure, State};
use vstd::prelude::*;

verus! {

/// The actions of a run that starts in `state` and is fed `events` in order.
/// The run ends with the first event that its state does not wait for.
pub open spec fn actions(state: State, events: Seq<Event>, window_secs: u64) -> Seq<Action>
    decreases events.len(),
{
    if events.len() == 0 {
        Seq::empty()
    } else {
        match transition(state, events[0], window_secs) {
            Some(taken) => seq![taken.action] + actions(
                taken.next,
                events.drop_first(),
                window_secs,
            ),
            None => Seq::empty(),
        }
    }
}

/// The state in which such a run ends.
pub open spec fn reached(state: State, events: Seq<Event>, window_secs: u64) -> State
    decreases events.len(),
{
    if events.len() == 0 {
        state
    } else {
        match transition(state, events[0], window_secs) {
            Some(taken) => reached(taken.next, events.drop_first(), window_secs),
            None => state,
        }
    }
}

/// The events of a run that got its directory and the probe's answer,
/// followed by whatever was reported later.
pub open spec fn probed_run(
    modified: Option<Timestamp>,
    now: Timestamp,
    later: Seq<Event>,
) -> Seq<Event> {
    seq![Event::Begin, Event::Completed, Event::Probed { modified, now }] + later
}

/// The part of a run that copies the artifact out: nothing if the run is cut
/// short, else the end of the run or an abort.
pub open spec fn is_stream_tail(tail: Seq<Action>) -> bool {
    ||| tail == Seq::<Action>::empty()
    ||| tail == seq![Action::Finish]
    ||| tail == seq![Action::Abort { failure: Failure::Stream }]
}

/// The part of a miss that follows the staging, as far as the run got.
pub open spec fn is_miss_tail(tail: Seq<Action>) -> bool {
    ||| tail == Seq::<Action>::empty()
    ||| tail == seq![Action::Abort { failure: Failure::Execution }]
    ||| tail == seq![Action::Execute]
    ||| tail == seq![Action::Execute, Action::Abort { failure: Failure::Execution }]
    ||| tail == seq![Action::Execute, Action::Publish]
    ||| tail == seq![
        Action::Execute,
        Action::Publish,
        Action::Abort { failure: Failure::Publication },
    ]
    ||| exists|end: Seq<Action>|
        is_stream_tail(end) && tail == seq![
            Action::Execute,
            Action::Publish,
            Action::Stream { cached: None },
        ] + end
}

/// What a run does once the probe has answered, as far as it got: a replay
/// of an artifact found fresh, or a staging and what follows it.
pub open spec fn is_decision_tail(tail: Seq<Action>) -> bool {
    ||| tail == Seq::<Action>::empty()
    ||| exists|cached: Timestamp, end: Seq<Action>|
        is_stream_tail(end) && tail == seq![Action::Stream { cached: Some(cached) }] + end
    ||| exists|rest: Seq<Action>| is_miss_tail(rest) && tail == seq![Action::Stage] + rest
}

/// The shape of every run from the start, as far as it got.
pub open spec fn is_run(run: Seq<Action>) -> bool {
    ||| run == Seq::<Action>::empty()
    ||| run == seq![Action::EnsureDirectory]
    ||| run == seq![Action::EnsureDirectory, Action::Abort { failure: Failure::Configuration }]
    ||| exists|tail: Seq<Action>|
        is_decision_tail(tail) && run == seq![Action::EnsureDirectory, Action::Probe] + tail
}

/// A run that is done or has failed does nothing more.
proof fn lemma_over(state: State, events: Seq<Event>, window_secs: u64)
    requires
        state == State::Done || state is Failed,
    ensures
        actions(state, events, window_secs) == Seq::<Action>::empty(),
        reached(state, events, window_secs) == state,
{
}

/// What can follow once the artifact is being copied out.
proof fn lemma_streaming(events: Seq<Event>, window_secs: u64)
    ensures
        is_stream_tail(actions(State::Streaming, events, window_secs)),
        reached(State::Streaming, events, window_secs) == State::Done ==> actions(
            State::Streaming,
            events,
            window_secs,
        ) == seq![Action::Finish],
{
    if events.len() > 0 {
        match transition(State::Streaming, events[0], window_secs) {
            Some(taken) => {
                lemma_over(taken.next, events.drop_first(), window_secs);
            },
            None => {},
        }
    }
}

/// What can follow once the staging artifact is being renamed.
proof fn lemma_publishing(events: Seq<Event>, window_secs: u64)
    ensures
        ({
            let run = actions(State::Publishing, events, window_secs);
            ||| run == Seq::<Action>::empty()
            ||| run == seq![Action::Abort { failure: Failure::Publication }]
            ||| exists|end: Seq<Action>|
                is_stream_tail(end) && run == seq![Action::Stream { cached: None }] + end
        }),
        reached(State::Publishing, events, window_secs) == State::Done ==> actions(
            State::Publishing,
            events,
            window_secs,
        ) == seq![Action::Stream { cached: None }, Action::Finish],
{
    if events.len() > 0 {
        let rest = events.drop_first();
        match events[0] {
            Event::Completed => {
                lemma_streaming(rest, window_secs);
                let end = actions(State::Streaming, rest, window_secs);
                assert(actions(State::Publishing, events, window_secs) == seq![
                    Action::Stream { cached: None },
                ] + end);
            },
            Event::Failed => {
                lemma_over(State::Failed { failure: Failure::Publication }, rest, window_secs);
            },
            _ => {},
        }
    }
}

/// What can follow once the command runs.
proof fn lemma_running(events: Seq<Event>, window_secs: u64)
    ensures
        ({
            let run = actions(State::Running, events, window_secs);
            ||| run == Seq::<Action>::empty()
            ||| run == seq![Action::Abort { failure: Failure::Execution }]
            ||| run == seq![Action::Publish]
            ||| run == seq![Action::Publish, Action::Abort { failure: Failure::Publication }]
            ||| exists|end: Seq<Action>|
                is_stream_tail(end) && run == seq![
                    Action::Publish,
                    Action::Stream { cached: None },
                ] + end
        }),
        reached(State::Running, events, window_secs) == State::Done ==> actions(
            State::Running,
            events,
            window_secs,
        ) == seq![Action::Publish, Action::Stream { cached: None }, Action::Finish],
{
    if events.len() > 0 {
        let rest = events.drop_first();
        match events[0] {
            Event::Completed => {
                lemma_publishing(rest, window_secs);
                let tail = actions(State::Publishing, rest, window_secs);
                let run = actions(State::Running, events, window_secs);
                assert(run == seq![Action::Publish] + tail);
                if tail != Seq::<Action>::empty() && tail != seq![
                    Action::Abort { failure: Failure::Publication },
                ] {
                    let end = choose|end: Seq<Action>|
                        is_stream_tail(end) && tail == seq![Action::Stream { cached: None }]
                            + end;
                    assert(run == seq![Action::Publish, Action::Stream { cached: None }] + end);
                }
            },
            Event::Failed => {
                lemma_over(State::Failed { failure: Failure::Execution }, rest, window_secs);
            },
            _ => {},
        }
    }
}

/// What can follow once a miss has been decided.
proof fn lemma_staging(events: Seq<Event>, window_secs: u64)
    ensures
        is_miss_tail(actions(State::Staging, events, window_secs)),
        reached(State::Staging, events, window_secs) == State::Done ==> actions(
            State::Staging,
            events,
            window_secs,
        ) == seq![
            Action::Execute,
            Action::Publish,
            Action::Stream { cached: None },
            Action::Finish,
        ],
{
    if events.len() > 0 {
        let rest = events.drop_first();
        match events[0] {
            Event::Completed => {
                lemma_running(rest, window_secs);
                let tail = actions(State::Running, rest, window_secs);
                let run = actions(State::Staging, events, window_secs);
                assert(run == seq![Action::Execute] + tail);
                if tail == Seq::<Action>::empty() {
                    assert(run == seq![Action::Execute]);
                } else if tail == seq![Action::Abort { failure: Failure::Execution }] {
                    assert(run == seq![
                        Action::Execute,
                        Action::Abort { failure: Failure::Execution },
                    ]);
                } else if tail == seq![Action::Publish] {
                    assert(run == seq![Action::Execute, Action::Publish]);
                } else if tail == seq![
                    Action::Publish,
                    Action::Abort { failure: Failure::Publication },
                ] {
                    assert(run == seq![
                        Action::Execute,
                        Action::Publish,
                        Action::Abort { failure: Failure::Publication },
                    ]);
                } else {
                    let end = choose|end: Seq<Action>|
                        is_stream_tail(end) && tail == seq![
                            Action::Publish,
                            Action::Stream { cached: None },
                        ] + end;
                    assert(run == seq![
                        Action::Execute,
                        Action::Publish,
                        Action::Stream { cached: None },
                    ] + end);
                }
            },
            Event::Failed => {
                lemma_over(State::Failed { failure: Failure::Execution }, rest, window_secs);
            },
            _ => {},
        }
    }
}

/// A run that got its directory and the probe's answer has asked for both,
/// taken its decision, and goes on from there.
proof fn lemma_probed_run(
    modified: Option<Timestamp>,
    now: Timestamp,
    later: Seq<Event>,
    window_secs: u64,
)
    ensures
        ({
            let events = probed_run(modified, now, later);
            let taken = transition(
                State::Checking,
                Event::Probed { modified, now },
                window_secs,
            ).unwrap();
            &&& actions(State::Start, events, window_secs) == seq![
                Action::EnsureDirectory,
                Action::Probe,
                taken.action,
            ] + actions(taken.next, later, window_secs)
            &&& reached(State::Start, events, window_secs) == reached(
                taken.next,
                later,
                window_secs,
            )
        }),
{
    let events = probed_run(modified, now, later);
    let second = events.drop_first();
    let third = second.drop_first();
    assert(second == seq![Event::Completed, Event::Probed { modified, now }] + later);
    assert(third == seq![Event::Probed { modified, now }] + later);
    assert(third.drop_first() == later);
    let taken = transition(State::Checking, Event::Probed { modified, now }, window_secs).unwrap();
    let tail = actions(taken.next, later, window_secs);
    assert(actions(State::Checking, third, window_secs) == seq![taken.action] + tail);
    assert(actions(State::Resolving, second, window_secs) == seq![Action::Probe, taken.action]
        + tail);
    assert(actions(State::Start, events, window_secs) == seq![
        Action::EnsureDirectory,
        Action::Probe,
        taken.action,
    ] + tail);
    assert(reached(State::Checking, third, window_secs) == reached(
        taken.next,
        later,
        window_secs,
    ));
    assert(reached(State::Resolving, second, window_secs) == reached(
        State::Checking,
        third,
        window_secs,
    ));
}

/// A fresh artifact is replayed. A run whose probe finds one announces its
/// time of modification and copies it out: whatever is reported afterwards,
/// nothing is staged, no command is run and nothing is published.
pub proof fn lemma_hit_never_executes(
    modified: Timestamp,
    now: Timestamp,
    window_secs: u64,
    later: Seq<Event>,
)
    requires
        fresh(modified, window_secs, now),
    ensures
        ({
            let run = actions(
                State::Start,
                probed_run(Some(modified), now, later),
                window_secs,
            );
            &&& run.len() >= 3
            &&& run.take(3) == seq![
                Action::EnsureDirectory,
                Action::Probe,
                Action::Stream { cached: Some(modified) },
            ]
            &&& is_stream_tail(run.skip(3))
            &&& !run.contains(Action::Stage)
            &&& !run.contains(Action::Execute)
            &&& !run.contains(Action::Publish)
        }),
{
    let run = actions(State::Start, probed_run(Some(modified), now, later), window_secs);
    lemma_probed_run(Some(modified), now, later, window_secs);
    lemma_streaming(later, window_secs);
    let end = actions(State::Streaming, later, window_secs);
    assert(run.skip(3) == end);
    assert(run.take(3) == seq![
        Action::EnsureDirectory,
        Action::Probe,
        Action::Stream { cached: Some(modified) },
    ]);
}

/// A hit that is reported as copied out is a whole run of four steps.
pub proof fn lemma_hit_run(modified: Timestamp, now: Timestamp, window_secs: u64)
    requires
        fresh(modified, window_secs, now),
    ensures
        actions(
            State::Start,
            probed_run(Some(modified), now, seq![Event::Completed]),
            window_secs,
        ) == seq![
            Action::EnsureDirectory,
            Action::Probe,
            Action::Stream { cached: Some(modified) },
            Action::Finish,
        ],
        reached(
            State::Start,
            probed_run(Some(modified), now, seq![Event::Completed]),
            window_secs,
        ) == State::Done,
{
    let later = seq![Event::Completed];
    lemma_probed_run(Some(modified), now, later, window_secs);
    lemma_over(State::Done, later.drop_first(), window_secs);
}

/// An artifact that is absent or stale is never replayed and never fallen
/// back on. A run whose probe finds none that is fresh stages; whatever is
/// reported afterwards, it copies out only what it has published itself, and
/// if it comes to its end it has run the command and published what the
/// command wrote.
pub proof fn lemma_miss_regenerates(
    modified: Option<Timestamp>,
    now: Timestamp,
    window_secs: u64,
    later: Seq<Event>,
)
    requires
        freshness(modified, window_secs, now).is_none(),
    ensures
        ({
            let events = probed_run(modified, now, later);
            let run = actions(State::Start, events, window_secs);
            &&& run.len() >= 3
            &&& run.take(3) == seq![Action::EnsureDirectory, Action::Probe, Action::Stage]
            &&& is_miss_tail(run.skip(3))
            &&& forall|i: int|
                0 <= i < run.len() && #[trigger] run[i] is Stream ==> run[i] == (Action::Stream {
                    cached: None,
                })
            &&& reached(State::Start, events, window_secs) == State::Done ==> run == seq![
                Action::EnsureDirectory,
                Action::Probe,
                Action::Stage,
                Action::Execute,
                Action::Publish,
                Action::Stream { cached: None },
                Action::Finish,
            ]
        }),
{
    let events = probed_run(modified, now, later);
    let run = actions(State::Start, events, window_secs);
    lemma_probed_run(modified, now, later, window_secs);
    lemma_staging(later, window_secs);
    let tail = actions(State::Staging, later, window_secs);
    assert(run.skip(3) == tail);
    assert(run.take(3) == seq![Action::EnsureDirectory, Action::Probe, Action::Stage]);
    assert forall|i: int| 0 <= i < run.len() && #[trigger] run[i] is Stream implies run[i] == (
    Action::Stream { cached: None }) by {
        if i >= 3 {
            assert(run[i] == tail[i - 3]);
        }
    }
}

/// Under a window of zero every run regenerates: an artifact whose time of
/// modification does not lie ahead of the clock is stale as soon as it is
/// written, so a run that comes to its end has run the command once more.
pub proof fn lemma_zero_window_always_executes(
    modified: Option<Timestamp>,
    now: Timestamp,
    later: Seq<Event>,
)
    requires
        modified.is_some() ==> modified.unwrap().instant() <= now.instant(),
    ensures
        ({
            let events = probed_run(modified, now, later);
            let run = actions(State::Start, events, 0);
            &&& run.len() >= 3
            &&& run[2] == Action::Stage
            &&& reached(State::Start, events, 0) == State::Done ==> run == seq![
                Action::EnsureDirectory,
                Action::Probe,
                Action::Stage,
                Action::Execute,
                Action::Publish,
                Action::Stream { cached: None },
                Action::Finish,
            ]
        }),
{
    lemma_miss_regenerates(modified, now, 0, later);
    let run = actions(State::Start, probed_run(modified, now, later), 0);
    assert(run[2] == run.take(3)[2]);
}

/// What can follow once the probe is under way.
proof fn lemma_checking(events: Seq<Event>, window_secs: u64)
    ensures
        is_decision_tail(actions(State::Checking, events, window_secs)),
{
    if events.len() > 0 {
        let rest = events.drop_first();
        let run = actions(State::Checking, events, window_secs);
        match events[0] {
            Event::Probed { modified, now } => {
                match freshness(modified, window_secs, now) {
                    Some(cached) => {
                        lemma_streaming(rest, window_secs);
                        let end = actions(State::Streaming, rest, window_secs);
                        assert(run == seq![Action::Stream { cached: Some(cached) }] + end);
                    },
                    None => {
                        lemma_staging(rest, window_secs);
                        let tail = actions(State::Staging, rest, window_secs);
                        assert(run == seq![Action::Stage] + tail);
                    },
                }
            },
            _ => {},
        }
    }
}

/// Every run from the start keeps to one order: the directory, the probe,
/// then either the replay of a fresh artifact or staging, execution,
/// publication and the copying out of what was published. An abort ends the
/// run at the step that failed.
pub proof fn lemma_every_run_is_ordered(events: Seq<Event>, window_secs: u64)
    ensures
        is_run(actions(State::Start, events, window_secs)),
{
    let run = actions(State::Start, events, window_secs);
    if events.len() > 0 && events[0] == Event::Begin {
        let second = events.drop_first();
        let after = actions(State::Resolving, second, window_secs);
        assert(run == seq![Action::EnsureDirectory] + after);
        if second.len() > 0 {
            let rest = second.drop_first();
            match second[0] {
                Event::Completed => {
                    lemma_checking(rest, window_secs);
                    let tail = actions(State::Checking, rest, window_secs);
                    assert(after == seq![Action::Probe] + tail);
                    assert(run == seq![Action::EnsureDirectory, Action::Probe] + tail);
                },
                Event::Failed => {
                    lemma_over(
                        State::Failed { failure: Failure::Configuration },
                        rest,
                        window_secs,
                    );
                    assert(run == seq![
                        Action::EnsureDirectory,
                        Action::Abort { failure: Failure::Configuration },
                    ]);
                },
                _ => {
                    assert(run == seq![Action::EnsureDirectory]);
                },
            }
        } else {
            assert(run == seq![Action::EnsureDirectory]);
        }
    }
}

/// Once a run is done or has failed it takes no further step, whatever is
/// reported to it.
pub proof fn lemma_end_is_final(state: State, event: Event, window_secs: u64)
    requires
        state == State::Done || state is Failed,
    ensures
        transition(state, event, window_secs).is_none(),
{
}

/// An error of configuration comes before anything else: the run has then
/// only asked for the directory, and has neither probed nor staged nor run
/// the command.
pub proof fn lemma_configuration_failure_comes_first(events: Seq<Event>, window_secs: u64)
    requires
        actions(State::Start, events, window_secs).contains(
            Action::Abort { failure: Failure::Configuration },
        ),
    ensures
        actions(State::Start, events, window_secs) == seq![
            Action::EnsureDirectory,
            Action::Abort { failure: Failure::Configuration },
        ],
{
    lemma_every_run_is_ordered(events, window_secs);
}

/// A run that fails in execution publishes nothing and copies nothing out:
/// what stood under the key before stays as it was, and is not fallen back
/// on.
pub proof fn lemma_execution_failure_publishes_nothing(events: Seq<Event>, window_secs: u64)
    requires
        actions(State::Start, events, window_secs).contains(
            Action::Abort { failure: Failure::Execution },
        ),
    ensures
        !actions(State::Start, events, window_secs).contains(Action::Publish),
        forall|i: int|
            0 <= i < actions(State::Start, events, window_secs).len() ==> !(#[trigger] actions(
                State::Start,
                events,
                window_secs,
            )[i] is Stream),
{
    lemma_every_run_is_ordered(events, window_secs);
}

/// A run copies out only what a probe found fresh or what the run itself has
/// just published: a `Stream` without a time follows a `Publish`, which
/// follows an `Execute`, which follows a `Stage`.
pub proof fn lemma_publication_precedes_streaming(
    events: Seq<Event>,
    window_secs: u64,
    i: int,
)
    requires
        0 <= i < actions(State::Start, events, window_secs).len(),
    ensures
        ({
            let run = actions(State::Start, events, window_secs);
            &&& run[i] == Action::Stream { cached: None } ==> i >= 1 && run[i - 1]
                == Action::Publish
            &&& run[i] == Action::Publish ==> i >= 1 && run[i - 1] == Action::Execute
            &&& run[i] == Action::Execute ==> i >= 1 && run[i - 1] == Action::Stage
            &&& run[i] == Action::Stage ==> i >= 1 && run[i - 1] == Action::Probe
        }),
{
    lemma_every_run_is_ordered(events, window_secs);
}

} // verus!
