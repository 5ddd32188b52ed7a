use crostini::signals::SignalClass;
use crostini::supervisor::{
    Delivery, Event, Phase, Request, Step, Supervisor, WaitOutcome, SPAWN_FAILED_STATUS,
};
use nix::sys::signal::Signal;

const CHILD: i32 = 4242;

fn term() -> i32 {
    Signal::SIGTERM as i32
}

fn reaping() -> Supervisor {
    Supervisor { child: CHILD, term: term(), phase: Phase::Reaping }
}

fn waited(outcome: WaitOutcome) -> Event {
    Event::Waited(outcome)
}

fn plain(request: Request) -> Step {
    Step { deliver: None, request }
}

#[test]
fn start_reaps_before_reading_signals() {
    let (sup, step) = Supervisor::start(CHILD);
    assert_eq!(sup, reaping());
    assert_eq!(step, plain(Request::WaitAny));
}

#[test]
fn workload_that_exits_before_signal_setup_is_reported() {
    let (mut sup, _) = Supervisor::start(CHILD);
    let step = sup.step(waited(WaitOutcome::Exited { pid: CHILD, code: 0 }));
    assert_eq!(
        step,
        Step { deliver: Some(Delivery { group: CHILD, signal: term() }), request: Request::WaitAny }
    );
    let step = sup.step(waited(WaitOutcome::StillAlive));
    assert_eq!(step, plain(Request::Exit { code: 0 }));
}

#[test]
fn sigterm_is_forwarded_and_reported_as_143() {
    let mut sup = reaping();
    assert_eq!(sup.step(waited(WaitOutcome::StillAlive)), plain(Request::ReadSignal));
    let step = sup.step(Event::Signal(SignalClass::Forward(term())));
    assert_eq!(
        step,
        Step { deliver: Some(Delivery { group: CHILD, signal: term() }), request: Request::ReadSignal }
    );
    assert_eq!(sup.step(Event::Signal(SignalClass::ChildStatus)), plain(Request::WaitAny));
    let step = sup.step(waited(WaitOutcome::Signaled { pid: CHILD, signal: term() as u8 }));
    assert_eq!(step.request, Request::WaitAny);
    assert_eq!(sup.phase, Phase::Draining { code: 143 });
    assert_eq!(sup.step(waited(WaitOutcome::NoChildren)), plain(Request::Exit { code: 143 }));
}

#[test]
fn exit_code_is_returned_directly() {
    let mut sup = reaping();
    sup.step(waited(WaitOutcome::Exited { pid: CHILD, code: 3 }));
    // Grandchildren still exiting are reaped without changing the status.
    assert_eq!(
        sup.step(waited(WaitOutcome::Exited { pid: CHILD + 1, code: 9 })),
        plain(Request::WaitAny)
    );
    assert_eq!(sup.step(waited(WaitOutcome::OtherStatus)), plain(Request::WaitAny));
    assert_eq!(sup.step(waited(WaitOutcome::Interrupted)), plain(Request::Exit { code: 3 }));
    assert_eq!(sup.phase, Phase::Finished { code: 3 });
}

#[test]
fn finished_supervisor_keeps_its_status() {
    let mut sup = Supervisor { child: CHILD, term: term(), phase: Phase::Finished { code: 7 } };
    assert_eq!(sup.step(Event::Signal(SignalClass::Forward(2))), plain(Request::Exit { code: 7 }));
    assert_eq!(sup.step(waited(WaitOutcome::Exited { pid: CHILD, code: 1 })), plain(Request::Exit { code: 7 }));
    assert_eq!(sup.phase, Phase::Finished { code: 7 });
}

#[test]
fn other_children_are_reaped_without_ending_supervision() {
    let mut sup = reaping();
    assert_eq!(
        sup.step(waited(WaitOutcome::Exited { pid: CHILD + 7, code: 1 })),
        plain(Request::WaitAny)
    );
    assert_eq!(
        sup.step(waited(WaitOutcome::Signaled { pid: CHILD + 8, signal: 9 })),
        plain(Request::WaitAny)
    );
    assert_eq!(sup.step(waited(WaitOutcome::Interrupted)), plain(Request::WaitAny));
    assert_eq!(sup.step(waited(WaitOutcome::OtherStatus)), plain(Request::WaitAny));
    assert_eq!(sup.phase, Phase::Reaping);
    assert_eq!(sup.step(waited(WaitOutcome::Failed)), plain(Request::ReadSignal));
    assert_eq!(sup.phase, Phase::Listening);
}

#[test]
fn no_children_returns_to_listening() {
    let mut sup = reaping();
    assert_eq!(sup.step(waited(WaitOutcome::NoChildren)), plain(Request::ReadSignal));
    assert_eq!(sup.phase, Phase::Listening);
}

#[test]
fn uncatchable_and_unknown_signals_are_not_forwarded() {
    let mut sup = Supervisor { child: CHILD, term: term(), phase: Phase::Listening };
    assert_eq!(sup.step(Event::Signal(SignalClass::Uncatchable)), plain(Request::ReadSignal));
    assert_eq!(sup.step(Event::Signal(SignalClass::Unknown)), plain(Request::ReadSignal));
    assert_eq!(sup.step(Event::NoSignal), plain(Request::ReadSignal));
    assert_eq!(sup.phase, Phase::Listening);
}

#[test]
fn failed_signal_read_aborts_with_status_1() {
    let mut sup = Supervisor { child: CHILD, term: term(), phase: Phase::Listening };
    assert_eq!(sup.step(Event::ReadFailed), plain(Request::Abort { code: 1 }));
    assert_eq!(sup.phase, Phase::Aborted { code: 1 });
    assert_eq!(sup.step(Event::NoSignal), plain(Request::Abort { code: 1 }));
}

#[test]
fn unexpected_events_repeat_the_pending_request() {
    let mut sup = reaping();
    assert_eq!(sup.step(Event::Signal(SignalClass::Forward(2))), plain(Request::WaitAny));
    assert_eq!(sup, reaping());
    let mut listening = Supervisor { child: CHILD, term: term(), phase: Phase::Listening };
    assert_eq!(listening.step(waited(WaitOutcome::StillAlive)), plain(Request::ReadSignal));
    assert_eq!(listening.phase, Phase::Listening);
}

#[test]
fn pending_request_follows_the_phase() {
    let mut sup = reaping();
    assert_eq!(sup.pending(), Request::WaitAny);
    sup.phase = Phase::Draining { code: 5 };
    assert_eq!(sup.pending(), Request::WaitAny);
    sup.phase = Phase::Aborted { code: 1 };
    assert_eq!(sup.pending(), Request::Abort { code: 1 });
}

#[test]
fn spawn_failure_status_is_127() {
    assert_eq!(SPAWN_FAILED_STATUS, 127);
}
