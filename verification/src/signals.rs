//! Signals as the init sees them: the numbers that nix gives to the signals
//! the init names, the mask it installs, and how it classifies a signal read
//! from its signalfd.

use nix::sys::signal::{SigSet, Signal};
use vstd::prelude::*;

verus! {

/// The mask of blocked signals that the init installs (nix's `SigSet`).
#[verifier::external_type_specification]
#[verifier::external_body]
pub struct ExSigSet(SigSet);

/// The signals that a `SigSet` holds, by number.
pub uninterp spec fn sigset_members(set: SigSet) -> Set<i32>;

/// Whether nix's `Signal::try_from` accepts this number, that is whether it is
/// one of the signals that nix's `Signal` enumerates on this platform.
pub uninterp spec fn nix_signal_is_known(signo: i32) -> bool;

/// The number of the named signal, as nix's `Signal` gives it (`Signal::X as i32`).
pub uninterp spec fn nix_signal_number(name: SignalName) -> i32;

/// The signals that the init refers to by name.
#[derive(Clone, Copy, Debug, PartialEq, Eq, Structural)]
pub enum SignalName {
    Child,
    Kill,
    Stop,
    Term,
    Segv,
    Ill,
    Bus,
    Abrt,
    Fpe,
    Trap,
    Sys,
    Ttin,
    Ttou,
}

/// Calls `nix::sys::signal::SigSet::all`. Its documentation and source
/// (`sigfillset`) say the set holds every signal; the contract states this
/// for the signals that nix enumerates and leaves the others unsaid.
#[verifier::external_body]
fn full_sigset() -> (set: SigSet)
    ensures
        forall|n: i32| nix_signal_is_known(n) ==> #[trigger] sigset_members(set).contains(n),
{
    SigSet::all()
}

/// Calls `nix::sys::signal::SigSet::remove` on the signal that
/// `Signal::try_from` gives for `signo` (`sigdelset`): the set loses exactly
/// that signal.
#[verifier::external_body]
fn sigset_remove(set: &mut SigSet, signo: i32)
    requires
        nix_signal_is_known(signo),
    ensures
        sigset_members(*final(set)) == sigset_members(*old(set)).remove(signo),
{
    if let Ok(sig) = Signal::try_from(signo) {
        set.remove(sig);
    }
}

/// Calls `nix::sys::signal::Signal::try_from` and reports whether it
/// accepted the number.
#[verifier::external_body]
fn is_known_signal(signo: i32) -> (known: bool)
    ensures
        known == nix_signal_is_known(signo),
{
    Signal::try_from(signo).is_ok()
}

/// The number of nix's `Signal` variant for `name` (`Signal::X as i32`). nix
/// declares each variant with its libc number and accepts that number in
/// `Signal::try_from`; enum discriminants are distinct, so distinct names
/// have distinct numbers.
#[verifier::external_body]
pub(crate) fn signal_number(name: SignalName) -> (n: i32)
    ensures
        n == nix_signal_number(name),
        nix_signal_is_known(n),
        forall|m: SignalName| #[trigger] nix_signal_number(m) == n ==> m == name,
{
    let sig = match name {
        SignalName::Child => Signal::SIGCHLD, SignalName::Kill => Signal::SIGKILL,
        SignalName::Stop => Signal::SIGSTOP, SignalName::Term => Signal::SIGTERM,
        SignalName::Segv => Signal::SIGSEGV, SignalName::Ill => Signal::SIGILL,
        SignalName::Bus => Signal::SIGBUS, SignalName::Abrt => Signal::SIGABRT,
        SignalName::Fpe => Signal::SIGFPE, SignalName::Trap => Signal::SIGTRAP,
        SignalName::Sys => Signal::SIGSYS, SignalName::Ttin => Signal::SIGTTIN,
        SignalName::Ttou => Signal::SIGTTOU,
    };
    sig as i32
}

/// The signals that the init leaves unblocked: the two that cannot be
/// caught, the synchronous fault signals, and the terminal-stop signals.
pub open spec fn left_unblocked(name: SignalName) -> bool {
    match name {
        SignalName::Child | SignalName::Term => false,
        _ => true,
    }
}

/// Whether `n` is the number of a signal that the init leaves unblocked.
pub open spec fn is_left_unblocked_number(n: i32) -> bool {
    exists|name: SignalName| left_unblocked(name) && #[trigger] nix_signal_number(name) == n
}

/// The mask that the init blocks and reads through its signalfd: every signal
/// but those of `left_unblocked`.
pub fn init_signal_mask() -> (mask: SigSet)
    ensures
        forall|name: SignalName| left_unblocked(name)
            ==> !sigset_members(mask).contains(#[trigger] nix_signal_number(name)),
        forall|n: i32| nix_signal_is_known(n) && !is_left_unblocked_number(n)
            ==> #[trigger] sigset_members(mask).contains(n),
        forall|name: SignalName| !left_unblocked(name)
            ==> sigset_members(mask).contains(#[trigger] nix_signal_number(name)),
        sigset_members(mask).contains(nix_signal_number(SignalName::Child)),
        sigset_members(mask).contains(nix_signal_number(SignalName::Term)),
        forall|name: SignalName|
            name == SignalName::Kill || name == SignalName::Stop || name == SignalName::Segv
                || name == SignalName::Ill || name == SignalName::Bus || name == SignalName::Abrt
                || name == SignalName::Fpe || name == SignalName::Trap || name == SignalName::Sys
                || name == SignalName::Ttin || name == SignalName::Ttou
            ==> !sigset_members(mask).contains(#[trigger] nix_signal_number(name)),
{
    let child = signal_number(SignalName::Child);
    let term = signal_number(SignalName::Term);
    let mut mask = full_sigset();
    let ghost full = sigset_members(mask);
    let names = [
        SignalName::Kill, SignalName::Stop, SignalName::Segv, SignalName::Ill,
        SignalName::Bus, SignalName::Abrt, SignalName::Fpe, SignalName::Trap,
        SignalName::Sys, SignalName::Ttin, SignalName::Ttou,
    ];
    for i in 0..11
        invariant
            forall|j: int| 0 <= j < i ==> !sigset_members(mask).contains(
                nix_signal_number(#[trigger] names@[j]),
            ),
            forall|n: i32| #[trigger] full.contains(n)
                && (forall|j: int| 0 <= j < i ==> nix_signal_number(#[trigger] names@[j]) != n)
                ==> sigset_members(mask).contains(n),
            forall|n: i32| nix_signal_is_known(n) ==> #[trigger] full.contains(n),
            names@ == seq![
                SignalName::Kill, SignalName::Stop, SignalName::Segv, SignalName::Ill,
                SignalName::Bus, SignalName::Abrt, SignalName::Fpe, SignalName::Trap,
                SignalName::Sys, SignalName::Ttin, SignalName::Ttou,
            ],
    {
        let n = signal_number(names[i]);
        sigset_remove(&mut mask, n);
    }
    assert forall|name: SignalName| left_unblocked(name)
        implies !sigset_members(mask).contains(#[trigger] nix_signal_number(name)) by {
        let j: int = match name {
            SignalName::Kill => 0, SignalName::Stop => 1, SignalName::Segv => 2,
            SignalName::Ill => 3, SignalName::Bus => 4, SignalName::Abrt => 5,
            SignalName::Fpe => 6, SignalName::Trap => 7, SignalName::Sys => 8,
            SignalName::Ttin => 9, SignalName::Ttou => 10, _ => 0,
        };
        assert(names@[j] == name);
    }
    assert forall|n: i32| nix_signal_is_known(n) && !is_left_unblocked_number(n)
        implies #[trigger] sigset_members(mask).contains(n) by {
        assert forall|j: int| 0 <= j < 11 implies nix_signal_number(#[trigger] names@[j]) != n by {
            if nix_signal_number(names@[j]) == n {
                assert(left_unblocked(names@[j]));
            }
        }
        assert(full.contains(n));
    }
    assert forall|name: SignalName| !left_unblocked(name)
        implies sigset_members(mask).contains(#[trigger] nix_signal_number(name)) by {
        let n = nix_signal_number(name);
        assert(n == child || n == term);
        if is_left_unblocked_number(n) {
            let other = choose|other: SignalName| left_unblocked(other) && #[trigger] nix_signal_number(other) == n;
            assert(other == name);
        }
    }
    mask
}

/// How the init treats a signal read from its signalfd.
#[derive(Clone, Copy, Debug, PartialEq, Eq, Structural)]
pub enum SignalClass {
    /// `SIGCHLD`: some child changed state, so the init reaps.
    ChildStatus,
    /// `SIGKILL` or `SIGSTOP`: never forwarded.
    Uncatchable,
    /// A number that nix does not know as a signal: ignored.
    Unknown,
    /// Any other signal: forwarded to the workload's process group.
    Forward(i32),
}

/// The numbers of the signals that the classification compares against.
#[derive(Clone, Copy, Debug, PartialEq, Eq, Structural)]
pub struct SignalNumbers {
    pub child: i32,
    pub kill: i32,
    pub stop: i32,
}

impl SignalNumbers {
    /// The numbers that nix gives to `SIGCHLD`, `SIGKILL` and `SIGSTOP`; no
    /// other named signal has one of them.
    pub fn from_nix() -> (numbers: SignalNumbers)
        ensures
            numbers.child == nix_signal_number(SignalName::Child),
            numbers.kill == nix_signal_number(SignalName::Kill),
            numbers.stop == nix_signal_number(SignalName::Stop),
            forall|name: SignalName| #[trigger] nix_signal_number(name) == numbers.child
                ==> name == SignalName::Child,
            forall|name: SignalName| #[trigger] nix_signal_number(name) == numbers.kill
                ==> name == SignalName::Kill,
            forall|name: SignalName| #[trigger] nix_signal_number(name) == numbers.stop
                ==> name == SignalName::Stop,
    {
        SignalNumbers {
            child: signal_number(SignalName::Child),
            kill: signal_number(SignalName::Kill),
            stop: signal_number(SignalName::Stop),
        }
    }
}

/// The class of signal `signo`, given whether nix knows it and the numbers of
/// the signals the init singles out.
pub open spec fn class_of(signo: i32, known: bool, numbers: SignalNumbers) -> SignalClass {
    if !known {
        SignalClass::Unknown
    } else if signo == numbers.child {
        SignalClass::ChildStatus
    } else if signo == numbers.kill || signo == numbers.stop {
        SignalClass::Uncatchable
    } else {
        SignalClass::Forward(signo)
    }
}

/// Classifies `signo`, where `known` is whether nix's `Signal::try_from`
/// accepts it.
pub fn classify_signal_with(signo: i32, known: bool, numbers: &SignalNumbers) -> (class: SignalClass)
    ensures
        class == class_of(signo, known, *numbers),
{
    if !known {
        SignalClass::Unknown
    } else if signo == numbers.child {
        SignalClass::ChildStatus
    } else if signo == numbers.kill || signo == numbers.stop {
        SignalClass::Uncatchable
    } else {
        SignalClass::Forward(signo)
    }
}

/// Classifies a signal number read from the signalfd. A named signal other
/// than `SIGCHLD`, `SIGKILL` and `SIGSTOP` is forwarded; `SIGTERM` is.
pub fn classify_signal(signo: i32) -> (class: SignalClass)
    ensures
        class == class_of(
            signo,
            nix_signal_is_known(signo),
            SignalNumbers {
                child: nix_signal_number(SignalName::Child),
                kill: nix_signal_number(SignalName::Kill),
                stop: nix_signal_number(SignalName::Stop),
            },
        ),
        forall|name: SignalName| signo == #[trigger] nix_signal_number(name)
            && nix_signal_is_known(signo)
            && name != SignalName::Child && name != SignalName::Kill && name != SignalName::Stop
            ==> class == SignalClass::Forward(signo),
        signo == nix_signal_number(SignalName::Term) ==> class == SignalClass::Forward(signo),
{
    let _term = signal_number(SignalName::Term);
    let known = is_known_signal(signo);
    let numbers = SignalNumbers::from_nix();
    classify_signal_with(signo, known, &numbers)
}

} // verus!
