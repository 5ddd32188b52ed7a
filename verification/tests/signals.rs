use crostini::signals::{
    classify_signal, classify_signal_with, init_signal_mask, SignalClass, SignalNumbers,
};
use nix::sys::signal::Signal;

#[test]
fn classification_follows_the_signal() {
    assert_eq!(classify_signal(Signal::SIGCHLD as i32), SignalClass::ChildStatus);
    assert_eq!(classify_signal(Signal::SIGKILL as i32), SignalClass::Uncatchable);
    assert_eq!(classify_signal(Signal::SIGSTOP as i32), SignalClass::Uncatchable);
    assert_eq!(classify_signal(Signal::SIGTERM as i32), SignalClass::Forward(Signal::SIGTERM as i32));
    assert_eq!(classify_signal(Signal::SIGINT as i32), SignalClass::Forward(Signal::SIGINT as i32));
    assert_eq!(classify_signal(Signal::SIGHUP as i32), SignalClass::Forward(Signal::SIGHUP as i32));
}

#[test]
fn numbers_nix_does_not_know_are_ignored() {
    assert_eq!(classify_signal(0), SignalClass::Unknown);
    assert_eq!(classify_signal(-3), SignalClass::Unknown);
    assert_eq!(classify_signal(200), SignalClass::Unknown);
}

#[test]
fn classification_with_given_numbers() {
    let numbers = SignalNumbers { child: 17, kill: 9, stop: 19 };
    assert_eq!(classify_signal_with(17, true, &numbers), SignalClass::ChildStatus);
    assert_eq!(classify_signal_with(9, true, &numbers), SignalClass::Uncatchable);
    assert_eq!(classify_signal_with(19, true, &numbers), SignalClass::Uncatchable);
    assert_eq!(classify_signal_with(15, true, &numbers), SignalClass::Forward(15));
    assert_eq!(classify_signal_with(15, false, &numbers), SignalClass::Unknown);
    assert_eq!(classify_signal_with(17, false, &numbers), SignalClass::Unknown);
}

#[test]
fn nix_numbers_are_those_of_the_named_signals() {
    let numbers = SignalNumbers::from_nix();
    assert_eq!(numbers.child, Signal::SIGCHLD as i32);
    assert_eq!(numbers.kill, Signal::SIGKILL as i32);
    assert_eq!(numbers.stop, Signal::SIGSTOP as i32);
}

#[test]
fn mask_blocks_handled_signals_only() {
    let mask = init_signal_mask();
    for sig in [
        Signal::SIGKILL,
        Signal::SIGSTOP,
        Signal::SIGSEGV,
        Signal::SIGILL,
        Signal::SIGBUS,
        Signal::SIGABRT,
        Signal::SIGFPE,
        Signal::SIGTRAP,
        Signal::SIGSYS,
        Signal::SIGTTIN,
        Signal::SIGTTOU,
    ] {
        assert!(!mask.contains(sig), "{sig:?} must stay unblocked");
    }
    for sig in [
        Signal::SIGCHLD,
        Signal::SIGTERM,
        Signal::SIGINT,
        Signal::SIGHUP,
        Signal::SIGQUIT,
        Signal::SIGUSR1,
        Signal::SIGUSR2,
        Signal::SIGWINCH,
        Signal::SIGPIPE,
        Signal::SIGALRM,
    ] {
        assert!(mask.contains(sig), "{sig:?} must be blocked");
    }
}
