//! The decisions of the launcher: which process event leads to which next
//! step, and what is reported on the console along the way.
//!
//! The surrounding program spawns, waits and kills; this machine only
//! turns each reported outcome into the next state, an optional console
//! line, and the one action the program should perform next.

use vstd::prelude::*;
use crate::fmt::bg_killed_message;
use crate::fmt::bg_killed_text;
use crate::fmt::bg_started_message;
use crate::fmt::bg_started_text;
use crate::fmt::fg_exited_message;
use crate::fmt::fg_exited_text;
use crate::fmt::fg_started_message;
use crate::fmt::fg_started_text;
use crate::fmt::kill_failed_message;
use crate::fmt::kill_failed_text;
use crate::fmt::spawn_failed_message;
use crate::fmt::spawn_failed_text;
use crate::fmt::views_of;
use crate::fmt::wait_failed_message;
use crate::fmt::wait_failed_text;

verus! {

/// Where the launch has got to.
#[derive(Clone, Copy)]
pub enum SupervisorState {
    /// The background server process is being spawned.
    Launching,
    /// The background process runs; its output is watched for the marker.
    WaitingServer { bg_pid: u32 },
    /// The server is up; the interactive process is being spawned.
    StartingForeground { bg_pid: u32 },
    /// Both processes run; the interactive one is being waited on.
    ForegroundRunning { bg_pid: u32, fg_pid: u32 },
    /// The interactive process is gone; the background one is being killed.
    KillingBackground { bg_pid: u32 },
    /// Nothing is left to do.
    Finished,
}

/// What the surrounding program reports back to the supervisor.
pub enum Event {
    BgSpawned { pid: u32 },
    BgSpawnFailed { error: String },
    ServerReady,
    FgSpawned { pid: u32 },
    FgSpawnFailed { error: String },
    FgExited { status: String },
    FgWaitFailed { error: String },
    BgKilled,
    BgKillFailed { error: String },
}

/// What the surrounding program should do next.
#[derive(Clone, Copy, PartialEq, Eq, Structural, Debug)]
pub enum Action {
    /// Watch the background output until the readiness marker appears.
    AwaitServerReady,
    /// Spawn the interactive process.
    LaunchForeground,
    /// Wait for the interactive process to exit.
    AwaitForegroundExit,
    /// Kill the background process.
    KillBackground,
    /// Nothing more to do.
    Stop,
}

/// Which console stream a line belongs on.
#[derive(Clone, Copy, PartialEq, Eq, Structural, Debug)]
pub enum Stream {
    Stdout,
    Stderr,
}

/// A line to print, with the stream it belongs on.
pub struct ConsoleLine {
    pub stream: Stream,
    pub text: String,
}

/// What one step hands back: perhaps a line to print, and the next action.
pub struct StepOutput {
    pub message: Option<ConsoleLine>,
    pub action: Action,
}

/// The action a state is waiting on when an event does not concern it.
pub open spec fn waiting_action(s: SupervisorState) -> Action {
    match s {
        SupervisorState::Launching => Action::Stop,
        SupervisorState::WaitingServer { .. } => Action::AwaitServerReady,
        SupervisorState::StartingForeground { .. } => Action::LaunchForeground,
        SupervisorState::ForegroundRunning { .. } => Action::AwaitForegroundExit,
        SupervisorState::KillingBackground { .. } => Action::KillBackground,
        SupervisorState::Finished => Action::Stop,
    }
}

/// The state after an event. An event that does not concern the current
/// state leaves it as it is.
pub open spec fn spec_next(s: SupervisorState, e: Event) -> SupervisorState {
    match (s, e) {
        (SupervisorState::Launching, Event::BgSpawned { pid }) => SupervisorState::WaitingServer {
            bg_pid: pid,
        },
        (SupervisorState::Launching, Event::BgSpawnFailed { .. }) => SupervisorState::Finished,
        (
            SupervisorState::WaitingServer { bg_pid },
            Event::ServerReady,
        ) => SupervisorState::StartingForeground { bg_pid },
        (
            SupervisorState::StartingForeground { bg_pid },
            Event::FgSpawned { pid },
        ) => SupervisorState::ForegroundRunning { bg_pid, fg_pid: pid },
        (
            SupervisorState::StartingForeground { .. },
            Event::FgSpawnFailed { .. },
        ) => SupervisorState::Finished,
        (
            SupervisorState::ForegroundRunning { bg_pid, .. },
            Event::FgExited { .. },
        ) => SupervisorState::KillingBackground { bg_pid },
        (
            SupervisorState::ForegroundRunning { .. },
            Event::FgWaitFailed { .. },
        ) => SupervisorState::Finished,
        (SupervisorState::KillingBackground { .. }, Event::BgKilled) => SupervisorState::Finished,
        (
            SupervisorState::KillingBackground { .. },
            Event::BgKillFailed { .. },
        ) => SupervisorState::Finished,
        (st, _) => st,
    }
}

/// The action asked of the surrounding program after an event.
pub open spec fn spec_action(s: SupervisorState, e: Event) -> Action {
    match (s, e) {
        (SupervisorState::Launching, Event::BgSpawned { .. }) => Action::AwaitServerReady,
        (SupervisorState::Launching, Event::BgSpawnFailed { .. }) => Action::Stop,
        (SupervisorState::WaitingServer { .. }, Event::ServerReady) => Action::LaunchForeground,
        (
            SupervisorState::StartingForeground { .. },
            Event::FgSpawned { .. },
        ) => Action::AwaitForegroundExit,
        (SupervisorState::StartingForeground { .. }, Event::FgSpawnFailed { .. }) => Action::Stop,
        (
            SupervisorState::ForegroundRunning { .. },
            Event::FgExited { .. },
        ) => Action::KillBackground,
        (SupervisorState::ForegroundRunning { .. }, Event::FgWaitFailed { .. }) => Action::Stop,
        (SupervisorState::KillingBackground { .. }, Event::BgKilled) => Action::Stop,
        (SupervisorState::KillingBackground { .. }, Event::BgKillFailed { .. }) => Action::Stop,
        (st, _) => waiting_action(st),
    }
}

/// The console line an event earns, if any, with the stream it belongs on.
pub open spec fn spec_message(s: SupervisorState, e: Event, args: Seq<Seq<char>>) -> Option<
    (Stream, Seq<char>),
> {
    match (s, e) {
        (SupervisorState::Launching, Event::BgSpawned { pid }) => Some(
            (Stream::Stdout, bg_started_text(pid)),
        ),
        (SupervisorState::Launching, Event::BgSpawnFailed { error }) => Some(
            (Stream::Stderr, spawn_failed_text(error@)),
        ),
        (SupervisorState::WaitingServer { .. }, Event::ServerReady) => None,
        (SupervisorState::StartingForeground { .. }, Event::FgSpawned { pid }) => Some(
            (Stream::Stdout, fg_started_text(pid, args)),
        ),
        (SupervisorState::StartingForeground { .. }, Event::FgSpawnFailed { error }) => Some(
            (Stream::Stderr, spawn_failed_text(error@)),
        ),
        (SupervisorState::ForegroundRunning { .. }, Event::FgExited { status }) => Some(
            (Stream::Stdout, fg_exited_text(status@)),
        ),
        (SupervisorState::ForegroundRunning { .. }, Event::FgWaitFailed { error }) => Some(
            (Stream::Stderr, wait_failed_text(error@)),
        ),
        (SupervisorState::KillingBackground { bg_pid }, Event::BgKilled) => Some(
            (Stream::Stdout, bg_killed_text(bg_pid)),
        ),
        (SupervisorState::KillingBackground { .. }, Event::BgKillFailed { error }) => Some(
            (Stream::Stderr, kill_failed_text(error@)),
        ),
        (_, _) => None,
    }
}

/// Whether a produced console line is the one the transition calls for.
pub open spec fn message_matches(m: Option<ConsoleLine>, wanted: Option<(Stream, Seq<char>)>,) -> bool {
    match (m, wanted) {
        (Option::None, Option::None) => true,
        (Option::Some(line), Option::Some(w)) => line.stream == w.0 && line.text@ == w.1,
        (_, _) => false,
    }
}

/// The supervisor: the current state and the arguments the interactive
/// process is launched with.
pub struct Supervisor {
    pub state: SupervisorState,
    pub args: Vec<String>,
}

impl Supervisor {
    /// A supervisor about to spawn the background process, remembering the
    /// arguments meant for the interactive one.
    pub fn new(args: Vec<String>) -> (s: Supervisor)
        ensures
            s.state is Launching,
            s.args == args,
    {
        Supervisor { state: SupervisorState::Launching, args }
    }

    /// One step: take the reported event, move to the next state, and hand
    /// back the console line the event earns and the next action.
    pub fn step(&mut self, event: Event) -> (out: StepOutput)
        ensures
            final(self).args == old(self).args,
            final(self).state == spec_next(old(self).state, event),
            out.action == spec_action(old(self).state, event),
            message_matches(
                out.message,
                spec_message(old(self).state, event, views_of(old(self).args@)),
            ),
    {
        let st = self.state;
        match (st, event) {
            (SupervisorState::Launching, Event::BgSpawned { pid }) => {
                self.state = SupervisorState::WaitingServer { bg_pid: pid };
                StepOutput {
                    message: Some(
                        ConsoleLine { stream: Stream::Stdout, text: bg_started_message(pid) },
                    ),
                    action: Action::AwaitServerReady,
                }
            },
            (SupervisorState::Launching, Event::BgSpawnFailed { error }) => {
                self.state = SupervisorState::Finished;
                StepOutput {
                    message: Some(
                        ConsoleLine {
                            stream: Stream::Stderr,
                            text: spawn_failed_message(error.as_str()),
                        },
                    ),
                    action: Action::Stop,
                }
            },
            (SupervisorState::WaitingServer { bg_pid }, Event::ServerReady) => {
                self.state = SupervisorState::StartingForeground { bg_pid };
                StepOutput { message: None, action: Action::LaunchForeground }
            },
            (SupervisorState::StartingForeground { bg_pid }, Event::FgSpawned { pid }) => {
                self.state = SupervisorState::ForegroundRunning { bg_pid, fg_pid: pid };
                StepOutput {
                    message: Some(
                        ConsoleLine {
                            stream: Stream::Stdout,
                            text: fg_started_message(pid, &self.args),
                        },
                    ),
                    action: Action::AwaitForegroundExit,
                }
            },
            (SupervisorState::StartingForeground { .. }, Event::FgSpawnFailed { error }) => {
                self.state = SupervisorState::Finished;
                StepOutput {
                    message: Some(
                        ConsoleLine {
                            stream: Stream::Stderr,
                            text: spawn_failed_message(error.as_str()),
                        },
                    ),
                    action: Action::Stop,
                }
            },
            (SupervisorState::ForegroundRunning { bg_pid, .. }, Event::FgExited { status }) => {
                self.state = SupervisorState::KillingBackground { bg_pid };
                StepOutput {
                    message: Some(
                        ConsoleLine {
                            stream: Stream::Stdout,
                            text: fg_exited_message(status.as_str()),
                        },
                    ),
                    action: Action::KillBackground,
                }
            },
            (SupervisorState::ForegroundRunning { .. }, Event::FgWaitFailed { error }) => {
                self.state = SupervisorState::Finished;
                StepOutput {
                    message: Some(
                        ConsoleLine {
                            stream: Stream::Stderr,
                            text: wait_failed_message(error.as_str()),
                        },
                    ),
                    action: Action::Stop,
                }
            },
            (SupervisorState::KillingBackground { bg_pid }, Event::BgKilled) => {
                self.state = SupervisorState::Finished;
                StepOutput {
                    message: Some(
                        ConsoleLine { stream: Stream::Stdout, text: bg_killed_message(bg_pid) },
                    ),
                    action: Action::Stop,
                }
            },
            (SupervisorState::KillingBackground { .. }, Event::BgKillFailed { error }) => {
                self.state = SupervisorState::Finished;
                StepOutput {
                    message: Some(
                        ConsoleLine {
                            stream: Stream::Stderr,
                            text: kill_failed_message(error.as_str()),
                        },
                    ),
                    action: Action::Stop,
                }
            },
            (_, _) => {
                let action = match st {
                    SupervisorState::Launching => Action::Stop,
                    SupervisorState::WaitingServer { .. } => Action::AwaitServerReady,
                    SupervisorState::StartingForeground { .. } => Action::LaunchForeground,
                    SupervisorState::ForegroundRunning { .. } => Action::AwaitForegroundExit,
                    SupervisorState::KillingBackground { .. } => Action::KillBackground,
                    SupervisorState::Finished => Action::Stop,
                };
                StepOutput { message: None, action }
            },
        }
    }
}

/// Once the supervisor is finished, no event moves it, earns a line, or
/// asks for anything but stopping.
pub proof fn lemma_finished_is_terminal(e: Event, args: Seq<Seq<char>>)
    ensures
        spec_next(SupervisorState::Finished, e) == SupervisorState::Finished,
        spec_action(SupervisorState::Finished, e) == Action::Stop,
        spec_message(SupervisorState::Finished, e, args) is None,
{
}

/// The kill of the background process is only ever asked for right after
/// the interactive process has exited, or while that kill is still owed:
/// both are states that know the background process.
pub proof fn lemma_kill_needs_known_background(s: SupervisorState, e: Event)
    ensures
        spec_action(s, e) == Action::KillBackground ==> (s matches
            SupervisorState::ForegroundRunning { .. } || s matches SupervisorState::KillingBackground {
            ..
        }),
{
}

} // verus!
