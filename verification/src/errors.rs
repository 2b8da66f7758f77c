//! Failure taxonomy for every capture, recording and state-store operation.

use vstd::prelude::*;

use crate::text::{contains_seq, occurs_at};

verus! {

/// One typed failure per way an operation can go wrong.  Variants carry the
/// human-readable context a caller needs to report the failure; none is ever
/// produced by a panic.
#[derive(Clone, Debug)]
pub enum CaptureError {
    /// The external program could not be launched at all (missing binary,
    /// permission denied).
    ToolInvocationFailed { context: String },
    /// The external program ran and exited non-zero; `detail` is its trimmed
    /// stderr text when non-empty, otherwise a rendering of the exit code.
    ToolExecutionFailed { context: String, detail: String },
    /// The user aborted the interactive region pick, or the selection tool
    /// produced no geometry.
    SelectionCancelled,
    /// The compositor's IPC reply was not the JSON shape the call expects.
    ParseFailed { context: String },
    /// Neither reply shape of the focused-output query contained a name.
    OutputNameNotFound,
    /// No detached-recording record exists.
    StateMissing,
    /// A detached-recording record exists but is malformed.
    StateCorrupt,
    /// The detached-recording record could not be written, so the new
    /// recording would be untrackable.
    StateWriteFailed { path: String },
    /// A signal could not be delivered for a reason other than the target
    /// process being gone.
    SignalDeliveryFailed,
    /// The output directory could not be created.
    DirectoryCreateFailed { dir: String },
    /// Neither a pictures directory nor a home directory could be resolved.
    NoUserDirectory,
    /// A detached-recording record already exists: a recording is in
    /// progress, and a second one may not start.
    AlreadyRecording,
    /// The recorder process could not be spawned.
    RecorderLaunchFailed,
    /// The recorder exited with a non-zero status; partial output may still
    /// exist at the carried path.
    RecorderExitedAbnormally { output_path: String },
}

impl CaptureError {
    /// A short, actionable description of the failure, always carrying the
    /// variant's context text.
    pub fn message(&self) -> (r: String)
        ensures
            self matches CaptureError::ToolInvocationFailed { context } ==> contains_seq(
                r@,
                context@,
            ),
            self matches CaptureError::ToolExecutionFailed { context, detail } ==> (contains_seq(
                r@,
                context@,
            ) && contains_seq(r@, detail@)),
            self matches CaptureError::ParseFailed { context } ==> contains_seq(r@, context@),
            self matches CaptureError::StateWriteFailed { path } ==> contains_seq(r@, path@),
            self matches CaptureError::DirectoryCreateFailed { dir } ==> contains_seq(r@, dir@),
            self matches CaptureError::RecorderExitedAbnormally { output_path }
                ==> contains_seq(r@, output_path@),
    {
        match self {
            CaptureError::ToolInvocationFailed { context } => {
                let m = context.clone().concat(": could not launch the command");
                proof {
                    assert(m@.subrange(0, context@.len() as int) =~= context@);
                    assert(occurs_at(m@, context@, 0));
                }
                m
            },
            CaptureError::ToolExecutionFailed { context, detail } => {
                let m = context.clone().concat(": ").concat(detail.as_str());
                proof {
                    assert(m@.subrange(0, context@.len() as int) =~= context@);
                    assert(occurs_at(m@, context@, 0));
                    let at = (context@ + ": "@).len() as int;
                    assert(m@.subrange(at, at + detail@.len()) =~= detail@);
                    assert(occurs_at(m@, detail@, at));
                }
                m
            },
            CaptureError::SelectionCancelled => {
                String::from_str("region selection was cancelled")
            },
            CaptureError::ParseFailed { context } => {
                let m = context.clone().concat(": reply could not be parsed");
                proof {
                    assert(m@.subrange(0, context@.len() as int) =~= context@);
                    assert(occurs_at(m@, context@, 0));
                }
                m
            },
            CaptureError::OutputNameNotFound => {
                String::from_str("no output name in the focused-output reply")
            },
            CaptureError::StateMissing => {
                String::from_str("no detached recording is in progress")
            },
            CaptureError::StateCorrupt => {
                String::from_str("the detached recording record is malformed")
            },
            CaptureError::StateWriteFailed { path } => {
                let head = String::from_str("could not write the recording record: ");
                let m = head.concat(path.as_str());
                proof {
                    let at = head@.len() as int;
                    assert(m@.subrange(at, at + path@.len()) =~= path@);
                    assert(occurs_at(m@, path@, at));
                }
                m
            },
            CaptureError::SignalDeliveryFailed => {
                String::from_str("failed to signal the recorder process")
            },
            CaptureError::DirectoryCreateFailed { dir } => {
                let head = String::from_str("could not create output directory: ");
                let m = head.concat(dir.as_str());
                proof {
                    let at = head@.len() as int;
                    assert(m@.subrange(at, at + dir@.len()) =~= dir@);
                    assert(occurs_at(m@, dir@, at));
                }
                m
            },
            CaptureError::NoUserDirectory => {
                String::from_str("could not locate a user directory")
            },
            CaptureError::AlreadyRecording => {
                String::from_str("a recording is already in progress; stop it first")
            },
            CaptureError::RecorderLaunchFailed => {
                String::from_str("could not start the recorder; check it is installed")
            },
            CaptureError::RecorderExitedAbnormally { output_path } => {
                let head = String::from_str("the recorder exited abnormally; partial output at: ");
                let m = head.concat(output_path.as_str());
                proof {
                    let at = head@.len() as int;
                    assert(m@.subrange(at, at + output_path@.len()) =~= output_path@);
                    assert(occurs_at(m@, output_path@, at));
                }
                m
            },
        }
    }
}

} // verus!
