//! The in-process recording session: a state machine over the recorder
//! child's process id, driven by signals, moving through
//! recording, paused and stopped.

use vstd::prelude::*;

use crate::errors::CaptureError;
use crate::signals::{send_signal, signal_result, valid_pid, SignalKind};

verus! {

/// One active recording owned by this process: the recorder child's id, the
/// path it is writing, and whether it currently sits paused.  Created when
/// the recorder is spawned; consumed by `stop_recording`.
pub struct RecordingSession {
    pub pid: u32,
    pub output_path: String,
    pub paused: bool,
}

impl RecordingSession {
    /// The session points at a process the kernel could have issued.
    pub open spec fn wf(self) -> bool {
        valid_pid(self.pid)
    }

    /// Pauses the recorder by suspending its process.  A recorder that
    /// already exited counts as paused; any other delivery failure leaves
    /// the session as it was.
    pub fn pause(&mut self) -> (r: Result<(), CaptureError>)
        requires
            old(self).wf(),
            !old(self).paused,
        ensures
            final(self).wf(),
            final(self).pid == old(self).pid,
            final(self).output_path == old(self).output_path,
            r is Ok ==> final(self).paused,
            r matches Err(e) ==> (e is SignalDeliveryFailed && !final(self).paused),
    {
        let outcome = send_signal(self.pid, SignalKind::Stop);
        match signal_result(outcome) {
            Ok(_) => {
                self.paused = true;
                Ok(())
            },
            Err(e) => Err(e),
        }
    }

    /// Resumes a paused recorder by letting its process continue.  A
    /// recorder that already exited counts as resumed; any other delivery
    /// failure leaves the session as it was.
    pub fn resume(&mut self) -> (r: Result<(), CaptureError>)
        requires
            old(self).wf(),
            old(self).paused,
        ensures
            final(self).wf(),
            final(self).pid == old(self).pid,
            final(self).output_path == old(self).output_path,
            r is Ok ==> !final(self).paused,
            r matches Err(e) ==> (e is SignalDeliveryFailed && final(self).paused),
    {
        let outcome = send_signal(self.pid, SignalKind::Continue);
        match signal_result(outcome) {
            Ok(_) => {
                self.paused = false;
                Ok(())
            },
            Err(e) => Err(e),
        }
    }
}

/// Begins tracking a recording whose recorder child the shell has just
/// spawned: the session starts out recording, not paused.
pub fn start_recording(pid: u32, output_path: String) -> (s: RecordingSession)
    requires
        valid_pid(pid),
    ensures
        s.wf(),
        s.pid == pid,
        s.output_path == output_path,
        !s.paused,
{
    RecordingSession { pid, output_path, paused: false }
}

/// Pauses a recording session, or resumes a paused one.  Returns whether the
/// session is paused afterwards; a delivery failure changes nothing.
pub fn toggle_recording_pause(session: &mut RecordingSession) -> (r: Result<bool, CaptureError>)
    requires
        old(session).wf(),
    ensures
        final(session).wf(),
        final(session).pid == old(session).pid,
        final(session).output_path == old(session).output_path,
        r matches Ok(b) ==> (final(session).paused == !old(session).paused && b == final(session).paused),
        r matches Err(e) ==> (e is SignalDeliveryFailed && final(session).paused == old(session).paused),
{
    if session.paused {
        match session.resume() {
            Ok(_) => Ok(false),
            Err(e) => Err(e),
        }
    } else {
        match session.pause() {
            Ok(_) => Ok(true),
            Err(e) => Err(e),
        }
    }
}

/// A stop with its signals already sent: the shell must now wait for the
/// recorder to exit and conclude with `finish_recording`.
pub struct PendingStop {
    pub output_path: String,
}

/// Stops a recording: resumes the recorder first when it sits paused (so it
/// can flush and finalise on exit), then — unless it is known to have exited
/// already — interrupts it.  A recorder that vanished is fine either time;
/// any other delivery failure abandons the stop, and the session is consumed
/// either way.
pub fn stop_recording(session: RecordingSession, already_exited: bool) -> (r: Result<
    PendingStop,
    CaptureError,
>)
    requires
        session.wf(),
    ensures
        r matches Ok(p) ==> p.output_path == session.output_path,
        r matches Err(e) ==> e is SignalDeliveryFailed,
        !session.paused && already_exited ==> r is Ok,
{
    if session.paused {
        match signal_result(send_signal(session.pid, SignalKind::Continue)) {
            Ok(_) => {},
            Err(e) => {
                return Err(e);
            },
        }
    }
    if !already_exited {
        match signal_result(send_signal(session.pid, SignalKind::Interrupt)) {
            Ok(_) => {},
            Err(e) => {
                return Err(e);
            },
        }
    }
    Ok(PendingStop { output_path: session.output_path })
}

/// Concludes a stop with the recorder's exit status: the output path on a
/// clean exit; on any other exit the abnormal-exit failure, which still
/// carries the path, since partial output may exist.
pub fn finish_recording(pending: PendingStop, exit_success: bool) -> (r: Result<
    String,
    CaptureError,
>)
    ensures
        exit_success ==> (r matches Ok(p) && p == pending.output_path),
        !exit_success ==> (r matches Err(e) && e matches CaptureError::RecorderExitedAbnormally {
            output_path: p,
        } && p == pending.output_path),
{
    if exit_success {
        Ok(pending.output_path)
    } else {
        Err(CaptureError::RecorderExitedAbnormally { output_path: pending.output_path })
    }
}

} // verus!
