//! Process-exit plumbing: the exit-report channel and the termination
//! signal mask.
//!
//! The process blocks its termination signals up front, so that a
//! dedicated thread can wait on them and turn them into a graceful exit
//! command; the command loop reports its final result over a channel to
//! the process owner.

use vstd::prelude::*;

use crate::errors::ErrorKind;

verus! {

/// The final result of the command loop: clean shutdown or a fatal error.
pub type ExitResult = Result<(), ErrorKind>;

#[verifier::external_type_specification]
#[verifier::external_body]
#[verifier::reject_recursive_types(T)]
pub struct ExSender<T>(std::sync::mpsc::Sender<T>);

/// Relies on `mpsc::Sender::send`: delivers the value unless the channel
/// is closed.  The send result is dropped: the reporting side cannot react
/// to a closed channel anyway.
#[verifier::external_body]
fn send_exit_result(exit_tx: &std::sync::mpsc::Sender<ExitResult>, r: ExitResult) {
    let _ = exit_tx.send(r);
}

/// Report a fatal error to the process owner over the exit channel.
pub fn exit(exit_tx: &std::sync::mpsc::Sender<ExitResult>, error: ErrorKind) {
    send_exit_result(exit_tx, Err(error));
}

#[verifier::external_type_specification]
#[verifier::external_body]
pub struct ExSigSet(nix::sys::signal::SigSet);

/// The signals a signal set contains, by their standard Linux numbers.
pub uninterp spec fn sigset_signals(s: nix::sys::signal::SigSet) -> Set<i32>;

/// Relies on `SigSet::empty` (sigemptyset): a set containing no signals.
#[verifier::external_body]
fn sigset_empty() -> (r: nix::sys::signal::SigSet)
    ensures
        sigset_signals(r) == Set::<i32>::empty(),
{
    nix::sys::signal::SigSet::empty()
}

/// Relies on `SigSet::add` (sigaddset): inserts the given signal into the
/// set.  Restricted to the four termination signals this crate handles
/// (hang-up 1, interrupt 2, quit 3, terminate 15), whose numbers are valid
/// on every Linux target.
#[verifier::external_body]
fn sigset_add(mask: &mut nix::sys::signal::SigSet, signo: i32)
    requires
        signo == 1 || signo == 2 || signo == 3 || signo == 15,
    ensures
        sigset_signals(*final(mask)) == sigset_signals(*old(mask)).insert(signo),
{
    mask.add(nix::sys::signal::Signal::try_from(signo).unwrap());
}

/// Relies on `SigSet::thread_block` (pthread_sigmask with SIG_BLOCK): adds
/// the set to the calling thread's signal mask; returns whether the call
/// succeeded.
#[verifier::external_body]
fn sigset_thread_block(mask: &nix::sys::signal::SigSet) -> (r: bool) {
    mask.thread_block().is_ok()
}

/// The mask of the termination signals: interrupt, quit, terminate and
/// hang-up.
pub fn create_exit_sigmask() -> (r: nix::sys::signal::SigSet)
    ensures
        sigset_signals(r) == set![1i32, 2i32, 3i32, 15i32],
{
    let mut mask = sigset_empty();
    sigset_add(&mut mask, 2);
    sigset_add(&mut mask, 3);
    sigset_add(&mut mask, 15);
    sigset_add(&mut mask, 1);
    proof {
        assert(sigset_signals(mask) =~= set![1i32, 2i32, 3i32, 15i32]);
    }
    mask
}

/// Block the termination signals on the calling thread, with the mask
/// inherited by threads spawned afterwards.
pub fn block_exit_signals() -> (r: ExitResult)
    ensures
        r matches Err(e) ==> e == ErrorKind::BlockExitSignals,
{
    let mask = create_exit_sigmask();
    if sigset_thread_block(&mask) {
        Ok(())
    } else {
        Err(ErrorKind::BlockExitSignals)
    }
}

} // verus!
