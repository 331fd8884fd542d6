//! The exit-report channel and the termination signal mask, run against
//! the real channel and the real signal set.

use std::sync::mpsc::channel;

use nix::sys::signal::Signal;

use wifi_connect::errors::ErrorKind;
use wifi_connect::exit::{block_exit_signals, create_exit_sigmask, exit, ExitResult};

#[test]
fn exit_reports_the_error_over_the_channel() {
    let (tx, rx) = channel::<ExitResult>();
    exit(&tx, ErrorKind::CreateCaptivePortal);
    assert_eq!(rx.recv().unwrap(), Err(ErrorKind::CreateCaptivePortal));
}

#[test]
fn exit_on_closed_channel_is_silent() {
    let (tx, rx) = channel::<ExitResult>();
    drop(rx);
    // Nothing to observe but the absence of a panic.
    exit(&tx, ErrorKind::Other);
}

#[test]
fn sigmask_holds_exactly_the_termination_signals() {
    let mask = create_exit_sigmask();
    assert!(mask.contains(Signal::SIGINT));
    assert!(mask.contains(Signal::SIGQUIT));
    assert!(mask.contains(Signal::SIGTERM));
    assert!(mask.contains(Signal::SIGHUP));
    assert!(!mask.contains(Signal::SIGUSR1));
    assert!(!mask.contains(Signal::SIGALRM));
}

#[test]
fn blocking_exit_signals_succeeds() {
    assert_eq!(block_exit_signals(), Ok(()));
}
