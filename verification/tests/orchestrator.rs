use cmd_cache::fingerprint::fingerprint;
use cmd_cache::freshness::Timestamp;
use cmd_cache::orchestrator::{step, Action, Event, Failure, State, Transition, CACHE_DIRECTORY};
use rand::distributions::Alphanumeric;
use rand::{thread_rng, Rng};
use std::collections::HashMap;

/// A cache directory, a clock and a command runner held in memory.
struct World {
    directories: Vec<String>,
    artifacts: HashMap<String, (Vec<u8>, Timestamp)>,
    staging: Option<Vec<u8>>,
    clock: i64,
    executions: usize,
    directory_usable: bool,
    staging_usable: bool,
    rename_usable: bool,
    artifact_readable: bool,
    killed_after: Option<usize>,
}

impl World {
    fn new() -> World {
        World {
            directories: Vec::new(),
            artifacts: HashMap::new(),
            staging: None,
            clock: 1_600_000_000,
            executions: 0,
            directory_usable: true,
            staging_usable: true,
            rename_usable: true,
            artifact_readable: true,
            killed_after: None,
        }
    }

    fn now(&self) -> Timestamp {
        Timestamp { secs: self.clock, nanos: 0 }
    }

    /// Stands for the command: `echo` writes its arguments and a newline,
    /// anything else cannot be spawned.
    fn execute(&mut self, args: &[String]) -> bool {
        if args[0] != "echo" {
            return false;
        }
        self.executions += 1;
        let text = args[1..].join(" ") + "\n";
        let bytes = text.into_bytes();
        match self.killed_after {
            Some(n) => {
                self.staging = Some(bytes[..n].to_vec());
                false
            }
            None => {
                self.staging = Some(bytes);
                true
            }
        }
    }

    fn outcome(done: bool) -> Event {
        if done {
            Event::Completed
        } else {
            Event::Failed
        }
    }

    /// Performs what the machine asks for until the run is over.
    fn run(
        &mut self,
        args: &[String],
        window_secs: u64,
        output: &mut Vec<u8>,
    ) -> (Vec<Action>, Result<(), Failure>) {
        let key = fingerprint(args);
        let mut actions = Vec::new();
        let mut state = State::Start;
        let mut event = Event::Begin;
        loop {
            let Transition { next, action } = step(state, event, window_secs).unwrap();
            state = next;
            actions.push(action);
            self.clock += 1;
            event = match action {
                Action::EnsureDirectory => {
                    if self.directory_usable && !self.directories.iter().any(|d| d == CACHE_DIRECTORY) {
                        self.directories.push(String::from(CACHE_DIRECTORY));
                    }
                    World::outcome(self.directory_usable)
                }
                Action::Probe => Event::Probed {
                    modified: self.artifacts.get(&key).map(|a| a.1),
                    now: self.now(),
                },
                Action::Stage => {
                    if self.staging_usable {
                        self.staging = Some(Vec::new());
                    }
                    World::outcome(self.staging_usable)
                }
                Action::Execute => World::outcome(self.execute(args)),
                Action::Publish => {
                    if self.rename_usable {
                        let bytes = self.staging.take().unwrap();
                        self.artifacts.insert(key.clone(), (bytes, self.now()));
                    }
                    World::outcome(self.rename_usable)
                }
                Action::Stream { .. } => {
                    if self.artifact_readable {
                        output.extend_from_slice(&self.artifacts[&key].0);
                    }
                    World::outcome(self.artifact_readable)
                }
                Action::Finish => {
                    assert_eq!(state, State::Done);
                    return (actions, Ok(()));
                }
                Action::Abort { failure } => {
                    assert_eq!(state, State::Failed { failure });
                    return (actions, Err(failure));
                }
            };
        }
    }
}

fn days(d: f32) -> u64 {
    (d * 24.0 * 3600.0) as u64
}

fn miss_actions() -> Vec<Action> {
    vec![
        Action::EnsureDirectory,
        Action::Probe,
        Action::Stage,
        Action::Execute,
        Action::Publish,
        Action::Stream { cached: None },
        Action::Finish,
    ]
}

fn hit_actions(cached: Timestamp) -> Vec<Action> {
    vec![
        Action::EnsureDirectory,
        Action::Probe,
        Action::Stream { cached: Some(cached) },
        Action::Finish,
    ]
}

#[test]
fn test_cmd_cache() {
    let mut world = World::new();

    let msg = "hello world";

    // never executed before
    let mut o: Vec<u8> = Vec::new();
    world.run(&[String::from("echo"), String::from(msg)], days(1.0), &mut o).1.unwrap();
    assert_eq!(msg.to_owned() + "\n", String::from_utf8(o).unwrap());

    // hits cache
    let mut o: Vec<u8> = Vec::new();
    world.run(&[String::from("echo"), String::from(msg)], days(1.0), &mut o).1.unwrap();
    assert_eq!(msg.to_owned() + "\n", String::from_utf8(o).unwrap());

    // cache too old
    let mut o: Vec<u8> = Vec::new();
    world.run(&[String::from("echo"), String::from(msg)], days(0.0), &mut o).1.unwrap();
    assert_eq!(msg.to_owned() + "\n", String::from_utf8(o).unwrap());

    // with a random string, multiple invocations
    let msg: String = thread_rng().sample_iter(&Alphanumeric).take(42).collect();
    for _ in 0..10 {
        let mut o: Vec<u8> = Vec::new();
        world.run(&[String::from("echo"), msg.to_owned()], days(1.0), &mut o).1.unwrap();
        assert_eq!(msg.to_owned() + "\n", String::from_utf8(o).unwrap());
    }
    assert_eq!(world.executions, 3);
}

#[test]
fn test_check_or_create_dir() {
    let mut world = World::new();
    let args = [String::from("echo"), String::from("x")];
    let result = vec![String::from(".cmd_cache")];

    // .cmd_cache doesn't exists at this point.
    let (actions, _) = world.run(&args, days(1.0), &mut Vec::new());
    assert_eq!(actions[0], Action::EnsureDirectory);
    assert_eq!(world.directories, result);

    // .cmd_cache exists at this point.
    let (actions, _) = world.run(&args, days(1.0), &mut Vec::new());
    assert_eq!(actions[0], Action::EnsureDirectory);
    assert_eq!(world.directories, result);
}

#[test]
fn first_run_misses_and_second_run_hits() {
    let mut world = World::new();
    let args = [String::from("echo"), String::from("hello world")];

    let mut first = Vec::new();
    let (actions, result) = world.run(&args, days(1.0), &mut first);
    assert_eq!(result, Ok(()));
    assert_eq!(actions, miss_actions());
    assert_eq!(first, b"hello world\n");
    assert_eq!(world.artifacts.len(), 1);
    assert_eq!(world.executions, 1);
    let (bytes, written) = world.artifacts["51b33d65c5dd5ba3c18c7ae9eac965a0"].clone();
    assert_eq!(bytes, b"hello world\n");

    let mut second = Vec::new();
    let (actions, result) = world.run(&args, days(1.0), &mut second);
    assert_eq!(result, Ok(()));
    assert_eq!(actions, hit_actions(written));
    assert_eq!(second, first);
    assert_eq!(world.artifacts.len(), 1);
    assert_eq!(world.executions, 1);
    assert_eq!(world.artifacts["51b33d65c5dd5ba3c18c7ae9eac965a0"].1, written);
}

#[test]
fn repeated_hits_never_execute() {
    let mut world = World::new();
    let payload: String = thread_rng().sample_iter(&Alphanumeric).take(20).collect();
    let args = [String::from("echo"), payload.clone()];
    let mut first = Vec::new();
    world.run(&args, days(1.0), &mut first).1.unwrap();
    for _ in 0..20 {
        let mut again = Vec::new();
        let (actions, result) = world.run(&args, days(1.0), &mut again);
        assert_eq!(result, Ok(()));
        assert!(!actions.contains(&Action::Execute));
        assert!(!actions.contains(&Action::Stage));
        assert!(!actions.contains(&Action::Publish));
        assert_eq!(again, first);
    }
    assert_eq!(first, (payload + "\n").into_bytes());
    assert_eq!(world.executions, 1);
}

#[test]
fn zero_window_executes_every_time() {
    let mut world = World::new();
    let args = [String::from("echo"), String::from("X")];

    let mut first = Vec::new();
    let (actions, _) = world.run(&args, days(0.0), &mut first);
    assert_eq!(actions, miss_actions());
    assert_eq!(first, b"X\n");
    let stamp = world.artifacts["e1e0c39a8125e66b488391ff4ec31dcc"].1;

    let mut second = Vec::new();
    let (actions, _) = world.run(&args, days(0.0), &mut second);
    assert_eq!(actions, miss_actions());
    assert_eq!(second, b"X\n");
    let later = world.artifacts["e1e0c39a8125e66b488391ff4ec31dcc"].1;

    assert_eq!(world.executions, 2);
    assert!(later.secs > stamp.secs);
    assert_eq!(world.artifacts.len(), 1);
}

#[test]
fn stale_artifact_is_replaced() {
    let mut world = World::new();
    let args = [String::from("echo"), String::from("old")];
    world.run(&args, 100, &mut Vec::new()).1.unwrap();
    world.clock += 100;
    let mut out = Vec::new();
    let (actions, result) = world.run(&args, 100, &mut out);
    assert_eq!(result, Ok(()));
    assert_eq!(actions, miss_actions());
    assert_eq!(world.executions, 2);
    assert_eq!(out, b"old\n");
}

#[test]
fn different_arguments_get_different_artifacts() {
    let mut world = World::new();
    let mut a = Vec::new();
    let mut b = Vec::new();
    world.run(&[String::from("echo"), String::from("ab"), String::from("c")], 60, &mut a).1.unwrap();
    world.run(&[String::from("echo"), String::from("a"), String::from("bc")], 60, &mut b).1.unwrap();
    assert_eq!(a, b"ab c\n");
    assert_eq!(b, b"a bc\n");
    assert_eq!(world.artifacts.len(), 2);
    assert_eq!(world.executions, 2);
}

#[test]
fn killed_command_leaves_the_old_artifact() {
    let mut world = World::new();
    let args = [String::from("echo"), String::from("complete output")];
    world.run(&args, 10, &mut Vec::new()).1.unwrap();
    let before = world.artifacts.clone();

    world.clock += 1_000;
    world.killed_after = Some(4);
    let mut out = Vec::new();
    let (actions, result) = world.run(&args, 10, &mut out);
    assert_eq!(result, Err(Failure::Execution));
    assert_eq!(
        actions,
        vec![
            Action::EnsureDirectory,
            Action::Probe,
            Action::Stage,
            Action::Execute,
            Action::Abort { failure: Failure::Execution },
        ]
    );
    assert!(out.is_empty());
    assert_eq!(world.artifacts, before);
}

#[test]
fn killed_command_publishes_nothing_on_an_empty_cache() {
    let mut world = World::new();
    world.killed_after = Some(2);
    let mut out = Vec::new();
    let (_, result) = world.run(&[String::from("echo"), String::from("abcdef")], 10, &mut out);
    assert_eq!(result, Err(Failure::Execution));
    assert!(world.artifacts.is_empty());
    assert!(out.is_empty());
}

#[test]
fn unusable_directory_is_a_configuration_error() {
    let mut world = World::new();
    world.directory_usable = false;
    let mut out = Vec::new();
    let (actions, result) = world.run(&[String::from("echo"), String::from("x")], 10, &mut out);
    assert_eq!(result, Err(Failure::Configuration));
    assert_eq!(
        actions,
        vec![Action::EnsureDirectory, Action::Abort { failure: Failure::Configuration }]
    );
    assert_eq!(world.executions, 0);
    assert!(out.is_empty());
}

#[test]
fn command_that_cannot_be_spawned_is_an_execution_error() {
    let mut world = World::new();
    let mut out = Vec::new();
    let (actions, result) = world.run(&[String::from("no-such-command")], 10, &mut out);
    assert_eq!(result, Err(Failure::Execution));
    assert_eq!(actions.last(), Some(&Action::Abort { failure: Failure::Execution }));
    assert!(!actions.contains(&Action::Publish));
    assert!(world.artifacts.is_empty());
    assert!(out.is_empty());
}

#[test]
fn staging_that_cannot_be_made_is_an_execution_error() {
    let mut world = World::new();
    world.staging_usable = false;
    let mut out = Vec::new();
    let (actions, result) = world.run(&[String::from("echo"), String::from("x")], 10, &mut out);
    assert_eq!(result, Err(Failure::Execution));
    assert_eq!(
        actions,
        vec![
            Action::EnsureDirectory,
            Action::Probe,
            Action::Stage,
            Action::Abort { failure: Failure::Execution },
        ]
    );
    assert_eq!(world.executions, 0);
}

#[test]
fn failed_rename_is_a_publication_error() {
    let mut world = World::new();
    world.rename_usable = false;
    let mut out = Vec::new();
    let (actions, result) = world.run(&[String::from("echo"), String::from("x")], 10, &mut out);
    assert_eq!(result, Err(Failure::Publication));
    assert_eq!(actions.last(), Some(&Action::Abort { failure: Failure::Publication }));
    assert!(world.artifacts.is_empty());
    assert!(out.is_empty());
}

#[test]
fn unreadable_artifact_is_a_stream_error() {
    let mut world = World::new();
    world.artifact_readable = false;
    let mut out = Vec::new();
    let (actions, result) = world.run(&[String::from("echo"), String::from("x")], 10, &mut out);
    assert_eq!(result, Err(Failure::Stream));
    assert_eq!(actions.last(), Some(&Action::Abort { failure: Failure::Stream }));
    assert!(out.is_empty());

    let cached = world.artifacts[&fingerprint(&[String::from("echo"), String::from("x")])].1;
    let (actions, result) = world.run(&[String::from("echo"), String::from("x")], 10, &mut out);
    assert_eq!(result, Err(Failure::Stream));
    assert_eq!(
        actions,
        vec![
            Action::EnsureDirectory,
            Action::Probe,
            Action::Stream { cached: Some(cached) },
            Action::Abort { failure: Failure::Stream },
        ]
    );
}

#[test]
fn step_table() {
    let go = |next, action| Some(Transition { next, action });
    let abort = |failure| {
        Some(Transition { next: State::Failed { failure }, action: Action::Abort { failure } })
    };
    assert_eq!(step(State::Start, Event::Begin, 5), go(State::Resolving, Action::EnsureDirectory));
    assert_eq!(step(State::Resolving, Event::Completed, 5), go(State::Checking, Action::Probe));
    assert_eq!(step(State::Resolving, Event::Failed, 5), abort(Failure::Configuration));
    assert_eq!(step(State::Staging, Event::Completed, 5), go(State::Running, Action::Execute));
    assert_eq!(step(State::Staging, Event::Failed, 5), abort(Failure::Execution));
    assert_eq!(step(State::Running, Event::Completed, 5), go(State::Publishing, Action::Publish));
    assert_eq!(step(State::Running, Event::Failed, 5), abort(Failure::Execution));
    assert_eq!(
        step(State::Publishing, Event::Completed, 5),
        go(State::Streaming, Action::Stream { cached: None })
    );
    assert_eq!(step(State::Publishing, Event::Failed, 5), abort(Failure::Publication));
    assert_eq!(step(State::Streaming, Event::Completed, 5), go(State::Done, Action::Finish));
    assert_eq!(step(State::Streaming, Event::Failed, 5), abort(Failure::Stream));
}

#[test]
fn step_decides_on_the_probe() {
    let modified = Timestamp { secs: 100, nanos: 7 };
    let probe = |now: Timestamp| Event::Probed { modified: Some(modified), now };
    assert_eq!(
        step(State::Checking, probe(Timestamp { secs: 104, nanos: 7 }), 5),
        Some(Transition {
            next: State::Streaming,
            action: Action::Stream { cached: Some(modified) }
        })
    );
    assert_eq!(
        step(State::Checking, probe(Timestamp { secs: 105, nanos: 6 }), 5),
        Some(Transition {
            next: State::Streaming,
            action: Action::Stream { cached: Some(modified) }
        })
    );
    assert_eq!(
        step(State::Checking, probe(Timestamp { secs: 105, nanos: 7 }), 5),
        Some(Transition { next: State::Staging, action: Action::Stage })
    );
    assert_eq!(
        step(
            State::Checking,
            Event::Probed { modified: None, now: Timestamp { secs: 0, nanos: 0 } },
            u64::MAX
        ),
        Some(Transition { next: State::Staging, action: Action::Stage })
    );
}

#[test]
fn unexpected_events_have_no_transition() {
    let probe = Event::Probed { modified: None, now: Timestamp { secs: 1, nanos: 0 } };
    assert_eq!(step(State::Start, Event::Completed, 5), None);
    assert_eq!(step(State::Start, Event::Failed, 5), None);
    assert_eq!(step(State::Start, probe, 5), None);
    assert_eq!(step(State::Checking, Event::Begin, 5), None);
    assert_eq!(step(State::Checking, Event::Completed, 5), None);
    assert_eq!(step(State::Checking, Event::Failed, 5), None);
    for state in [
        State::Resolving,
        State::Staging,
        State::Running,
        State::Publishing,
        State::Streaming,
    ] {
        assert_eq!(step(state, Event::Begin, 5), None);
        assert_eq!(step(state, probe, 5), None);
    }
}

#[test]
fn finished_and_failed_runs_take_no_step() {
    let probe = Event::Probed { modified: None, now: Timestamp { secs: 1, nanos: 0 } };
    let ends = [
        State::Done,
        State::Failed { failure: Failure::Configuration },
        State::Failed { failure: Failure::Execution },
        State::Failed { failure: Failure::Publication },
        State::Failed { failure: Failure::Stream },
    ];
    for state in ends {
        for event in [Event::Begin, Event::Completed, Event::Failed, probe] {
            assert_eq!(step(state, event, 5), None);
        }
    }
}

#[test]
fn directory_name() {
    assert_eq!(CACHE_DIRECTORY, ".cmd_cache");
}
