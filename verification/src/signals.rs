//! Signal delivery to recorder processes, and the library's reading of how a
//! delivery went.

use vstd::prelude::*;

use crate::errors::CaptureError;

verus! {

/// Which signal to send: the kernel's stop, continue and interrupt signals,
/// by which a recorder is paused, resumed and told to finalise.
#[derive(Clone, Copy, Debug, PartialEq, Eq, Structural)]
pub enum SignalKind {
    Stop,
    Continue,
    Interrupt,
}

/// How one signal delivery went: delivered; target already gone; or refused
/// for any other reason.
#[derive(Clone, Copy, Debug, PartialEq, Eq, Structural)]
pub enum SignalOutcome {
    Delivered,
    NoSuchProcess,
    Failed,
}

impl SignalOutcome {
    /// A vanished target counts as done: pause, resume and stop all want the
    /// process affected or gone, and gone already satisfies them.
    pub open spec fn tolerated(self) -> bool {
        self is Delivered || self is NoSuchProcess
    }
}

/// A process id the kernel could have issued, safe to signal: positive, and
/// within the range a process id occupies, so that it names one process and
/// never a process group.
pub open spec fn valid_pid(pid: u32) -> bool {
    1 <= pid <= 0x7fffffff
}

/// Relies on `nix::sys::signal::kill` with `SIGSTOP`, `SIGCONT` or
/// `SIGINT`: delivers the signal to the process of that id; an `ESRCH` error
/// means no such process exists; any other error is a refusal.
#[verifier::external_body]
pub(crate) fn send_signal(pid: u32, kind: SignalKind) -> (r: SignalOutcome)
    requires
        valid_pid(pid),
{
    let signal = match kind {
        SignalKind::Stop => nix::sys::signal::Signal::SIGSTOP,
        SignalKind::Continue => nix::sys::signal::Signal::SIGCONT,
        SignalKind::Interrupt => nix::sys::signal::Signal::SIGINT,
    };
    match nix::sys::signal::kill(nix::unistd::Pid::from_raw(pid as i32), signal) {
        Ok(()) => SignalOutcome::Delivered,
        Err(nix::errno::Errno::ESRCH) => SignalOutcome::NoSuchProcess,
        Err(_) => SignalOutcome::Failed,
    }
}

/// What one delivery outcome means for the operation: tolerated outcomes
/// succeed, anything else is a signal-delivery failure.
pub fn signal_result(outcome: SignalOutcome) -> (r: Result<(), CaptureError>)
    ensures
        outcome.tolerated() <==> r is Ok,
        r matches Err(e) ==> e is SignalDeliveryFailed,
{
    match outcome {
        SignalOutcome::Delivered => Ok(()),
        SignalOutcome::NoSuchProcess => Ok(()),
        SignalOutcome::Failed => Err(CaptureError::SignalDeliveryFailed),
    }
}

} // verus!
