//! Properties of the library that span several steps or functions.

use crate::env::EnvVars;
use crate::executor::{colon_fields, search_candidates, search_path_of};
use crate::signals::{SignalClass, SignalNumbers, class_of};
use crate::supervisor::{
    Delivery, Event, Phase, Request, Step, Supervisor, WaitOutcome, next, pending, plain,
    signaled_status,
};
use vstd::prelude::*;

verus! {

/// The supervisor after the events in order, and the steps it gave.
pub open spec fn run(s: Supervisor, events: Seq<Event>) -> (Supervisor, Seq<Step>)
    decreases events.len(),
{
    if events.len() == 0 {
        (s, seq![])
    } else {
        let prev = run(s, events.drop_last());
        let (s2, step) = next(prev.0, events.last());
        (s2, prev.1.push(step))
    }
}

/// The phases in which the workload's status is decided as `code`.
pub open spec fn settled(phase: Phase, code: i32) -> bool {
    phase == Phase::Draining { code } || phase == Phase::Finished { code }
}

/// Whether event `e`, answered by step `st`, is the workload `child` ending
/// with status `code`, answered by `SIGTERM` (number `term`) to its group.
pub open spec fn workload_end_seen(e: Event, st: Step, child: i32, term: i32, code: i32) -> bool {
    &&& st.deliver == Some(Delivery { group: child, signal: term })
    &&& (e == Event::Waited(WaitOutcome::Exited { pid: child, code })
        || exists|sig: u8| e == Event::Waited(WaitOutcome::Signaled { pid: child, signal: sig })
            && code == signaled_status(sig))
}

/// The steps of a run have one entry per event.
pub proof fn law_one_step_per_event(s: Supervisor, events: Seq<Event>)
    ensures
        run(s, events).1.len() == events.len(),
        run(s, events).0.child == s.child,
        run(s, events).0.term == s.term,
    decreases events.len(),
{
    if events.len() > 0 {
        law_one_step_per_event(s, events.drop_last());
    }
}

/// Once the workload's status is decided, it never changes: whatever happens
/// next, the init delivers no more signals, only waits or exits, and exits
/// with that status.
pub proof fn law_status_is_final(s: Supervisor, code: i32, events: Seq<Event>)
    requires
        settled(s.phase, code),
    ensures
        settled(run(s, events).0.phase, code),
        forall|i: int| 0 <= i < run(s, events).1.len() ==> {
            let st = #[trigger] run(s, events).1[i];
            &&& st.deliver is None
            &&& (st.request == Request::WaitAny || st.request == Request::Exit { code })
        },
    decreases events.len(),
{
    if events.len() > 0 {
        law_status_is_final(s, code, events.drop_last());
        let prev = run(s, events.drop_last());
        assert(run(s, events).1 == prev.1.push(next(prev.0, events.last()).1));
    }
}

/// A supervisor that has finished keeps asking to exit with the same status.
pub proof fn law_finished_stays_finished(s: Supervisor, code: i32, e: Event)
    requires
        s.phase == (Phase::Finished { code }),
    ensures
        next(s, e) == (s, plain(Request::Exit { code })),
{
}

/// While listening, every signal classified as forwardable is delivered,
/// unchanged, to the workload's group, and the init goes on listening.
pub proof fn law_forwardable_signals_are_delivered(s: Supervisor, n: i32)
    requires
        s.phase == Phase::Listening,
    ensures
        next(s, Event::Signal(SignalClass::Forward(n))) == (
            s,
            Step {
                deliver: Some(Delivery { group: s.child, signal: n }),
                request: Request::ReadSignal,
            },
        ),
{
}

/// While reaping, the workload's own end decides its status, whatever the
/// code or signal: an exit with `code` gives `code`, a death by signal `sig`
/// gives 128 + `sig`; the group is sent `SIGTERM` and the init drains.
pub proof fn law_workload_end_decides_status(s: Supervisor, code: i32, sig: u8)
    requires
        s.phase == Phase::Reaping,
    ensures
        next(s, Event::Waited(WaitOutcome::Exited { pid: s.child, code })).0.phase
            == (Phase::Draining { code }),
        next(s, Event::Waited(WaitOutcome::Exited { pid: s.child, code })).1 == (Step {
            deliver: Some(Delivery { group: s.child, signal: s.term }),
            request: Request::WaitAny,
        }),
        next(s, Event::Waited(WaitOutcome::Signaled { pid: s.child, signal: sig })).0.phase
            matches Phase::Draining { code: c } && c == 128 + sig,
        next(s, Event::Waited(WaitOutcome::Signaled { pid: s.child, signal: sig })).1 == (Step {
            deliver: Some(Delivery { group: s.child, signal: s.term }),
            request: Request::WaitAny,
        }),
        next(s, Event::Waited(WaitOutcome::Exited { pid: s.child, code })).0.child == s.child,
        next(s, Event::Waited(WaitOutcome::Signaled { pid: s.child, signal: sig })).0.term == s.term,
{
}

/// While reaping, the wait results that do not end the workload: a wait
/// that was interrupted, or any other child's exit, death or status change,
/// keeps the init reaping; "no child has ended", "no children" and a failed
/// wait send it back to reading signals. Nothing is delivered.
pub proof fn law_reaping_outcomes(s: Supervisor, pid: i32, code: i32, sig: u8)
    requires
        s.phase == Phase::Reaping,
        pid != s.child,
    ensures
        next(s, Event::Waited(WaitOutcome::Exited { pid, code })) == (s, Step { deliver: None, request: Request::WaitAny }),
        next(s, Event::Waited(WaitOutcome::Signaled { pid, signal: sig })) == (s, Step { deliver: None, request: Request::WaitAny }),
        next(s, Event::Waited(WaitOutcome::OtherStatus)) == (s, Step { deliver: None, request: Request::WaitAny }),
        next(s, Event::Waited(WaitOutcome::Interrupted)) == (s, Step { deliver: None, request: Request::WaitAny }),
        next(s, Event::Waited(WaitOutcome::StillAlive))
            == (Supervisor { phase: Phase::Listening, ..s }, Step { deliver: None, request: Request::ReadSignal }),
        next(s, Event::Waited(WaitOutcome::NoChildren))
            == (Supervisor { phase: Phase::Listening, ..s }, Step { deliver: None, request: Request::ReadSignal }),
        next(s, Event::Waited(WaitOutcome::Failed))
            == (Supervisor { phase: Phase::Listening, ..s }, Step { deliver: None, request: Request::ReadSignal }),
{
}

/// While listening: `SIGCHLD` starts reaping; a signal that is not
/// forwarded, or no signal, changes nothing and the init reads again; a
/// failed read makes it give up with status 1.
pub proof fn law_listening_outcomes(s: Supervisor)
    requires
        s.phase == Phase::Listening,
    ensures
        next(s, Event::Signal(SignalClass::ChildStatus))
            == (Supervisor { phase: Phase::Reaping, ..s }, Step { deliver: None, request: Request::WaitAny }),
        next(s, Event::Signal(SignalClass::Uncatchable)) == (s, Step { deliver: None, request: Request::ReadSignal }),
        next(s, Event::Signal(SignalClass::Unknown)) == (s, Step { deliver: None, request: Request::ReadSignal }),
        next(s, Event::NoSignal) == (s, Step { deliver: None, request: Request::ReadSignal }),
        next(s, Event::ReadFailed)
            == (Supervisor { phase: Phase::Aborted { code: 1 }, ..s }, Step { deliver: None, request: Request::Abort { code: 1 } }),
{
}

/// While draining with status `code`: when no child has ended, or there are
/// no children, or the wait fails, the init finishes and exits with `code`;
/// any child's end or status change keeps it draining. Nothing is delivered.
pub proof fn law_draining_outcomes(s: Supervisor, code: i32, pid: i32, c: i32, sig: u8)
    requires
        s.phase == (Phase::Draining { code }),
    ensures
        next(s, Event::Waited(WaitOutcome::StillAlive))
            == (Supervisor { phase: Phase::Finished { code }, ..s }, Step { deliver: None, request: Request::Exit { code } }),
        next(s, Event::Waited(WaitOutcome::NoChildren))
            == (Supervisor { phase: Phase::Finished { code }, ..s }, Step { deliver: None, request: Request::Exit { code } }),
        next(s, Event::Waited(WaitOutcome::Interrupted))
            == (Supervisor { phase: Phase::Finished { code }, ..s }, Step { deliver: None, request: Request::Exit { code } }),
        next(s, Event::Waited(WaitOutcome::Failed))
            == (Supervisor { phase: Phase::Finished { code }, ..s }, Step { deliver: None, request: Request::Exit { code } }),
        next(s, Event::Waited(WaitOutcome::Exited { pid, code: c })) == (s, Step { deliver: None, request: Request::WaitAny }),
        next(s, Event::Waited(WaitOutcome::Signaled { pid, signal: sig })) == (s, Step { deliver: None, request: Request::WaitAny }),
        next(s, Event::Waited(WaitOutcome::OtherStatus)) == (s, Step { deliver: None, request: Request::WaitAny }),
{
}

/// The init asks to exit with a status only once it has finished with that
/// status, and gives up only once it has aborted.
pub proof fn law_exit_only_when_finished(s: Supervisor, e: Event)
    ensures
        next(s, e).1.request matches Request::Exit { code } ==> next(s, e).0.phase == (Phase::Finished { code }),
        next(s, e).1.request matches Request::Abort { code } ==> next(s, e).0.phase == (Phase::Aborted { code }),
{
}

/// The init signals only the workload's group, and only in two cases: it
/// forwards a signal it read and classified as forwardable, or it sends
/// `SIGTERM` when the workload itself has ended.
pub proof fn law_deliveries(s: Supervisor, e: Event)
    ensures
        next(s, e).1.deliver matches Some(d) ==> {
            &&& d.group == s.child
            &&& {
                ||| (s.phase == Phase::Listening && e == Event::Signal(SignalClass::Forward(d.signal)))
                ||| (s.phase == Phase::Reaping && d.signal == s.term
                    && exists|code: i32| workload_end_seen(e, next(s, e).1, s.child, s.term, code))
            }
        },
{
    if next(s, e).1.deliver is Some && s.phase == Phase::Reaping {
        match e {
            Event::Waited(WaitOutcome::Exited { pid, code }) => {
                assert(workload_end_seen(e, next(s, e).1, s.child, s.term, code));
            },
            Event::Waited(WaitOutcome::Signaled { pid, signal }) => {
                assert(workload_end_seen(e, next(s, e).1, s.child, s.term, signaled_status(signal)));
            },
            _ => {},
        }
    }
}

/// An event that the current phase does not wait for changes nothing, and the
/// pending request is repeated.
pub proof fn law_unexpected_events_ignored(s: Supervisor, e: Event)
    requires
        !(s.phase == Phase::Listening && (e is Signal || e is ReadFailed)),
        !((s.phase == Phase::Reaping || s.phase is Draining) && e is Waited),
    ensures
        next(s, e) == (s, plain(pending(s.phase))),
{
}

/// Only the workload's own end decides its status: the exit or death of any
/// other child, and any other wait result, leaves the status undecided.
pub proof fn law_other_children_are_reaped(s: Supervisor, outcome: WaitOutcome)
    requires
        s.phase == Phase::Reaping,
        !(outcome matches WaitOutcome::Exited { pid, .. } && pid == s.child),
        !(outcome matches WaitOutcome::Signaled { pid, .. } && pid == s.child),
    ensures
        next(s, Event::Waited(outcome)).0.phase == Phase::Reaping
            || next(s, Event::Waited(outcome)).0.phase == Phase::Listening,
        next(s, Event::Waited(outcome)).1.deliver is None,
{
}

/// From the start of supervision, the status that the init reports is the
/// workload's own: its exit code, or 128 plus the number of the signal that
/// killed it, and the workload's group was sent `SIGTERM` at the step that
/// saw it end. The init gives up with status 1 only after a failed read of
/// its signalfd.
pub proof fn law_reported_status(child: i32, term: i32, events: Seq<Event>)
    ensures
        ({
            let s0 = Supervisor { child, term, phase: Phase::Reaping };
            let (s, steps) = run(s0, events);
            &&& forall|code: i32| settled(s.phase, code) ==> exists|i: int|
                0 <= i < events.len() && #[trigger] workload_end_seen(events[i], steps[i], child, term, code)
            &&& forall|code: i32| s.phase == (Phase::Aborted { code })
                ==> code == 1 && events.contains(Event::ReadFailed)
        }),
    decreases events.len(),
{
    let s0 = Supervisor { child, term, phase: Phase::Reaping };
    law_one_step_per_event(s0, events);
    if events.len() > 0 {
        let pre = events.drop_last();
        law_reported_status(child, term, pre);
        law_one_step_per_event(s0, pre);
        let prev = run(s0, pre);
        let e = events.last();
        let (s2, st) = next(prev.0, e);
        let steps = prev.1.push(st);
        assert(run(s0, events) == (s2, steps));
        assert forall|code: i32| settled(s2.phase, code) implies exists|i: int|
            0 <= i < events.len() && #[trigger] workload_end_seen(events[i], steps[i], child, term, code) by {
            if settled(prev.0.phase, code) {
                let i = choose|i: int| 0 <= i < pre.len()
                    && #[trigger] workload_end_seen(pre[i], prev.1[i], child, term, code);
                assert(events[i] == pre[i]);
                assert(steps[i] == prev.1[i]);
                assert(workload_end_seen(events[i], steps[i], child, term, code));
            } else {
                let i = events.len() - 1;
                assert(events[i] == e);
                assert(steps[i] == st);
                assert(prev.0.phase == Phase::Reaping);
                assert(prev.0.child == child && prev.0.term == term);
                match e {
                    Event::Waited(WaitOutcome::Signaled { pid, signal }) => {
                        assert(pid == child);
                        assert(code == signaled_status(signal));
                        assert(workload_end_seen(events[i], steps[i], child, term, code));
                    },
                    Event::Waited(WaitOutcome::Exited { pid, code: c }) => {
                        assert(pid == child);
                        assert(workload_end_seen(events[i], steps[i], child, term, code));
                    },
                    _ => {
                        assert(false);
                    },
                }
            }
        }
        assert forall|code: i32| s2.phase == (Phase::Aborted { code })
            implies code == 1 && events.contains(Event::ReadFailed) by {
            if prev.0.phase == (Phase::Aborted { code }) {
                let j = choose|j: int| 0 <= j < pre.len() && pre[j] == Event::ReadFailed;
                assert(events[j] == Event::ReadFailed);
            } else {
                assert(events[events.len() - 1] == Event::ReadFailed);
            }
        }
    }
}

/// A signal is forwarded only if nix knows it and it is none of `SIGCHLD`,
/// `SIGKILL` and `SIGSTOP`; every such signal is forwarded unchanged.
pub proof fn law_forwarded_signals(signo: i32, known: bool, numbers: SignalNumbers)
    ensures
        (class_of(signo, known, numbers) is Forward) <==> (known && signo != numbers.child
            && signo != numbers.kill && signo != numbers.stop),
        class_of(signo, known, numbers) matches SignalClass::Forward(n) ==> n == signo,
        !known ==> class_of(signo, known, numbers) == SignalClass::Unknown,
        known && signo == numbers.child ==> class_of(signo, known, numbers) == SignalClass::ChildStatus,
        known && signo != numbers.child && (signo == numbers.kill || signo == numbers.stop)
            ==> class_of(signo, known, numbers) == SignalClass::Uncatchable,
{
}

/// A colon splits the search path: the fields of `a:b` are the fields of
/// `a` followed by the fields of `b`.
pub proof fn law_path_fields_split_at_colon(a: Seq<char>, b: Seq<char>)
    ensures
        colon_fields(a + seq![':'] + b) == colon_fields(a) + colon_fields(b),
    decreases b.len(),
{
    let x = a + seq![':'] + b;
    if b.len() == 0 {
        assert(x.drop_last() =~= a);
        assert(colon_fields(x) =~= colon_fields(a) + colon_fields(b));
    } else {
        let b1 = b.drop_last();
        law_path_fields_split_at_colon(a, b1);
        assert(x.drop_last() =~= a + seq![':'] + b1);
        assert(x.last() == b.last());
        lemma_fields_nonempty(b1);
        lemma_fields_nonempty(a);
        assert(colon_fields(x) =~= colon_fields(a) + colon_fields(b));
    }
}

/// A search path without a colon is a single field.
pub proof fn law_path_without_colon_is_one_field(s: Seq<char>)
    requires
        !s.contains(':'),
    ensures
        colon_fields(s) == seq![s],
    decreases s.len(),
{
    if s.len() > 0 {
        let s1 = s.drop_last();
        assert(!s1.contains(':')) by {
            if s1.contains(':') {
                let i = choose|i: int| 0 <= i < s1.len() && s1[i] == ':';
                assert(s[i] == ':');
            }
        }
        law_path_without_colon_is_one_field(s1);
        assert(s.last() != ':') by {
            assert(s[s.len() - 1] == s.last());
        }
        assert(s1.push(s.last()) =~= s);
        assert(colon_fields(s) =~= seq![s]);
    } else {
        assert(s =~= Seq::<char>::empty());
    }
}

proof fn lemma_fields_nonempty(s: Seq<char>)
    ensures
        colon_fields(s).len() >= 1,
    decreases s.len(),
{
    if s.len() > 0 {
        lemma_fields_nonempty(s.drop_last());
    }
}

/// The candidates for `a:b` are those for `a`, then those for `b`.
pub proof fn law_candidates_follow_the_path_order(a: Seq<char>, b: Seq<char>, program: Seq<char>)
    ensures
        search_candidates(a + seq![':'] + b, program)
            == search_candidates(a, program) + search_candidates(b, program),
{
    law_path_fields_split_at_colon(a, b);
    assert(search_candidates(a + seq![':'] + b, program)
        =~= search_candidates(a, program) + search_candidates(b, program));
}

/// A single directory `dir` of the search path gives one candidate: the
/// program inside `dir`, with a `/` between them unless `dir` ends with one;
/// an empty entry stands for the current directory.
pub proof fn law_candidate_of_one_directory(dir: Seq<char>, program: Seq<char>)
    requires
        !dir.contains(':'),
    ensures
        search_candidates(dir, program) == seq![
            if dir.len() == 0 {
                seq!['.', '/'] + program
            } else if dir.last() == '/' {
                dir + program
            } else {
                dir + seq!['/'] + program
            },
        ],
{
    law_path_without_colon_is_one_field(dir);
    assert(seq!['.'] + seq!['/'] + program =~= seq!['.', '/'] + program);
    assert(search_candidates(dir, program) =~= seq![
        if dir.len() == 0 {
            seq!['.', '/'] + program
        } else if dir.last() == '/' {
            dir + program
        } else {
            dir + seq!['/'] + program
        },
    ]);
}

/// Without a `PATH` in the container, the program is looked for in `/bin`,
/// then in `/usr/bin`.
pub proof fn law_default_search(program: Seq<char>, envs: Option<&EnvVars>)
    requires
        envs matches Some(e) ==> !e@.contains_key(seq!['P', 'A', 'T', 'H']),
    ensures
        search_candidates(search_path_of(envs), program) == seq![
            seq!['/', 'b', 'i', 'n', '/'] + program,
            seq!['/', 'u', 's', 'r', '/', 'b', 'i', 'n', '/'] + program,
        ],
{
    let bin = seq!['/', 'b', 'i', 'n'];
    let usr_bin = seq!['/', 'u', 's', 'r', '/', 'b', 'i', 'n'];
    assert(search_path_of(envs) =~= bin + seq![':'] + usr_bin);
    law_candidates_follow_the_path_order(bin, usr_bin, program);
    assert(!bin.contains(':')) by {
        assert(forall|i: int| 0 <= i < bin.len() ==> bin[i] != ':');
    }
    assert(!usr_bin.contains(':')) by {
        assert(forall|i: int| 0 <= i < usr_bin.len() ==> usr_bin[i] != ':');
    }
    law_candidate_of_one_directory(bin, program);
    law_candidate_of_one_directory(usr_bin, program);
    assert(bin + seq!['/'] + program =~= seq!['/', 'b', 'i', 'n', '/'] + program);
    assert(usr_bin + seq!['/'] + program =~= seq!['/', 'u', 's', 'r', '/', 'b', 'i', 'n', '/'] + program);
    assert(search_candidates(search_path_of(envs), program) =~= seq![
        seq!['/', 'b', 'i', 'n', '/'] + program,
        seq!['/', 'u', 's', 'r', '/', 'b', 'i', 'n', '/'] + program,
    ]);
}

/// With a `PATH` in the container, that value is the search path.
pub proof fn law_container_path_is_searched(e: &EnvVars)
    requires
        e@.contains_key(seq!['P', 'A', 'T', 'H']),
    ensures
        search_path_of(Some(e)) == e@[seq!['P', 'A', 'T', 'H']],
{
}

} // verus!
