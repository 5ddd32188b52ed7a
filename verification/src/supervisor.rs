//! The supervision loop of the init, as a state machine: the caller performs
//! the request of each step (read a signal, wait for any child, or exit),
//! delivers the signal the step asks for, and feeds the result back in.

use crate::signals::{SignalClass, SignalName, nix_signal_number, signal_number};
use vstd::prelude::*;

verus! {

/// The status that the standalone init exits with when it cannot spawn the
/// workload, as a shell does for a command it cannot run.
pub const SPAWN_FAILED_STATUS: i32 = 127;

/// What a `waitpid(-1, WNOHANG)` returned, as the init distinguishes it.
#[derive(Clone, Copy, Debug, PartialEq, Eq, Structural)]
pub enum WaitOutcome {
    /// Process `pid` exited with `code`.
    Exited { pid: i32, code: i32 },
    /// Process `pid` was killed by signal `signal`.
    Signaled { pid: i32, signal: u8 },
    /// Children exist but none has changed state.
    StillAlive,
    /// Some other status change (stopped, continued, traced).
    OtherStatus,
    /// The call failed with `ECHILD`: there are no children.
    NoChildren,
    /// The call failed with `EINTR`.
    Interrupted,
    /// The call failed with another error.
    Failed,
}

/// The result of the request of the previous step.
#[derive(Clone, Copy, Debug, PartialEq, Eq, Structural)]
pub enum Event {
    /// The signalfd gave a signal, classified.
    Signal(SignalClass),
    /// The signalfd read returned no signal.
    NoSignal,
    /// The signalfd read failed.
    ReadFailed,
    /// A wait returned.
    Waited(WaitOutcome),
}

/// What the caller does next.
#[derive(Clone, Copy, Debug, PartialEq, Eq, Structural)]
pub enum Request {
    /// Read one signal from the signalfd.
    ReadSignal,
    /// Reap one child that has ended, without blocking: `waitpid(-1, WNOHANG)`.
    /// While reaping with the workload's status undecided, the caller may ask
    /// the workload first (`waitpid(child, WNOHANG)`) and report its end if it
    /// has ended: that reports a death by a signal that nix's `waitpid` does
    /// not decode. Either answer is the end of a child, as this request asks.
    WaitAny,
    /// Supervision is over: return `code` as the workload's status.
    Exit { code: i32 },
    /// Supervision failed: exit the process with `code` at once.
    Abort { code: i32 },
}

/// A signal to deliver to a process group (`killpg`); its result is ignored.
#[derive(Clone, Copy, Debug, PartialEq, Eq, Structural)]
pub struct Delivery {
    pub group: i32,
    pub signal: i32,
}

/// One step: first deliver `deliver`, if any, then perform `request`.
#[derive(Clone, Copy, Debug, PartialEq, Eq, Structural)]
pub struct Step {
    pub deliver: Option<Delivery>,
    pub request: Request,
}

/// Where the supervision stands.
#[derive(Clone, Copy, Debug, PartialEq, Eq, Structural)]
pub enum Phase {
    /// Reaping children after a `SIGCHLD` (or at start).
    Reaping,
    /// Waiting for the next signal.
    Listening,
    /// The workload is gone with status `code`; its group was sent `SIGTERM`
    /// and the init reaps what is left.
    Draining { code: i32 },
    /// Done: the workload's status is `code`.
    Finished { code: i32 },
    /// The signalfd failed; the init exits with `code`.
    Aborted { code: i32 },
}

/// The supervisor of one workload.
#[derive(Clone, Copy, Debug, PartialEq, Eq, Structural)]
pub struct Supervisor {
    /// The workload's pid, which is also its process group.
    pub child: i32,
    /// The number of `SIGTERM`, sent to the group when the workload is gone.
    pub term: i32,
    pub phase: Phase,
}

/// A step that only asks for `request`.
pub open spec fn plain(request: Request) -> Step {
    Step { deliver: None, request }
}

/// The request that a phase waits on.
pub open spec fn pending(phase: Phase) -> Request {
    match phase {
        Phase::Reaping => Request::WaitAny,
        Phase::Listening => Request::ReadSignal,
        Phase::Draining { .. } => Request::WaitAny,
        Phase::Finished { code } => Request::Exit { code },
        Phase::Aborted { code } => Request::Abort { code },
    }
}

/// The status that the init reports for a workload killed by `signal`.
pub open spec fn signaled_status(signal: u8) -> i32 {
    (128 + signal) as i32
}

/// The state with a new phase.
pub open spec fn with_phase(s: Supervisor, phase: Phase) -> Supervisor {
    Supervisor { phase, ..s }
}

/// Leaves the reaping loop for status `code`: the workload's group gets
/// `SIGTERM` and the init drains the remaining children.
pub open spec fn workload_gone(s: Supervisor, code: i32) -> (Supervisor, Step) {
    (
        with_phase(s, Phase::Draining { code }),
        Step {
            deliver: Some(Delivery { group: s.child, signal: s.term }),
            request: Request::WaitAny,
        },
    )
}

/// The transition of the supervisor on `event`. An event that the current
/// phase does not wait for leaves the state unchanged and repeats its request.
pub open spec fn next(s: Supervisor, event: Event) -> (Supervisor, Step) {
    let stay = (s, plain(pending(s.phase)));
    match s.phase {
        Phase::Reaping => match event {
            Event::Waited(outcome) => match outcome {
                WaitOutcome::Exited { pid, code } => if pid == s.child {
                    workload_gone(s, code)
                } else {
                    stay
                },
                WaitOutcome::Signaled { pid, signal } => if pid == s.child {
                    workload_gone(s, signaled_status(signal))
                } else {
                    stay
                },
                WaitOutcome::StillAlive | WaitOutcome::NoChildren | WaitOutcome::Failed => (
                    with_phase(s, Phase::Listening),
                    plain(Request::ReadSignal),
                ),
                WaitOutcome::OtherStatus | WaitOutcome::Interrupted => stay,
            },
            _ => stay,
        },
        Phase::Listening => match event {
            Event::Signal(class) => match class {
                SignalClass::ChildStatus => (
                    with_phase(s, Phase::Reaping),
                    plain(Request::WaitAny),
                ),
                SignalClass::Forward(signal) => (
                    s,
                    Step {
                        deliver: Some(Delivery { group: s.child, signal }),
                        request: Request::ReadSignal,
                    },
                ),
                _ => stay,
            },
            Event::ReadFailed => (
                with_phase(s, Phase::Aborted { code: 1 }),
                plain(Request::Abort { code: 1 }),
            ),
            _ => stay,
        },
        Phase::Draining { code } => match event {
            Event::Waited(outcome) => match outcome {
                WaitOutcome::Exited { .. } | WaitOutcome::Signaled { .. }
                | WaitOutcome::OtherStatus => stay,
                _ => (with_phase(s, Phase::Finished { code }), plain(Request::Exit { code })),
            },
            _ => stay,
        },
        _ => stay,
    }
}

impl Supervisor {
    /// Starts supervising workload `child`, once the signal mask and the
    /// signalfd are in place. The first request is a wait: a workload that
    /// exited before the mask was installed left no signal to read.
    pub fn start(child: i32) -> (res: (Supervisor, Step))
        ensures
            res.0 == (Supervisor {
                child,
                term: nix_signal_number(SignalName::Term),
                phase: Phase::Reaping,
            }),
            res.1 == plain(Request::WaitAny),
    {
        let term = signal_number(SignalName::Term);
        (Supervisor { child, term, phase: Phase::Reaping }, Step { deliver: None, request: Request::WaitAny })
    }

    /// Takes the result of the last request and gives the next step.
    pub fn step(&mut self, event: Event) -> (step: Step)
        ensures
            (*final(self), step) == next(*old(self), event),
    {
        let stay = Step { deliver: None, request: self.pending() };
        match self.phase {
            Phase::Reaping => match event {
                Event::Waited(outcome) => match outcome {
                    WaitOutcome::Exited { pid, code } => if pid == self.child {
                        self.finish_workload(code)
                    } else {
                        stay
                    },
                    WaitOutcome::Signaled { pid, signal } => if pid == self.child {
                        self.finish_workload(128 + signal as i32)
                    } else {
                        stay
                    },
                    WaitOutcome::StillAlive | WaitOutcome::NoChildren | WaitOutcome::Failed => {
                        self.phase = Phase::Listening;
                        Step { deliver: None, request: Request::ReadSignal }
                    },
                    WaitOutcome::OtherStatus | WaitOutcome::Interrupted => stay,
                },
                _ => stay,
            },
            Phase::Listening => match event {
                Event::Signal(class) => match class {
                    SignalClass::ChildStatus => {
                        self.phase = Phase::Reaping;
                        Step { deliver: None, request: Request::WaitAny }
                    },
                    SignalClass::Forward(signal) => Step {
                        deliver: Some(Delivery { group: self.child, signal }),
                        request: Request::ReadSignal,
                    },
                    _ => stay,
                },
                Event::ReadFailed => {
                    self.phase = Phase::Aborted { code: 1 };
                    Step { deliver: None, request: Request::Abort { code: 1 } }
                },
                _ => stay,
            },
            Phase::Draining { code } => match event {
                Event::Waited(outcome) => match outcome {
                    WaitOutcome::Exited { .. } | WaitOutcome::Signaled { .. }
                    | WaitOutcome::OtherStatus => stay,
                    _ => {
                        self.phase = Phase::Finished { code };
                        Step { deliver: None, request: Request::Exit { code } }
                    },
                },
                _ => stay,
            },
            _ => stay,
        }
    }

    /// The request that the current phase waits on.
    pub fn pending(&self) -> (request: Request)
        ensures
            request == pending(self.phase),
    {
        match self.phase {
            Phase::Reaping => Request::WaitAny,
            Phase::Listening => Request::ReadSignal,
            Phase::Draining { .. } => Request::WaitAny,
            Phase::Finished { code } => Request::Exit { code },
            Phase::Aborted { code } => Request::Abort { code },
        }
    }

    fn finish_workload(&mut self, code: i32) -> (step: Step)
        ensures
            (*final(self), step) == workload_gone(*old(self), code),
    {
        self.phase = Phase::Draining { code };
        Step {
            deliver: Some(Delivery { group: self.child, signal: self.term }),
            request: Request::WaitAny,
        }
    }
}

} // verus!
