use ncaptura::errors::CaptureError;
use ncaptura::recording::{finish_recording, start_recording, stop_recording,
    toggle_recording_pause};

// A positive id far above the kernel's process-id range: signalling it
// always finds the process gone, which pause, resume and stop tolerate.
const GONE_PID: u32 = 2147483647;

#[test]
fn a_new_session_is_recording() {
    let s = start_recording(GONE_PID, "/rec/a.mkv".to_string());
    assert_eq!(s.pid, GONE_PID);
    assert_eq!(s.output_path, "/rec/a.mkv");
    assert!(!s.paused);
}

#[test]
fn pause_then_resume_returns_to_recording_even_when_the_child_is_gone() {
    let mut s = start_recording(GONE_PID, "/rec/a.mkv".to_string());
    assert!(s.pause().is_ok());
    assert!(s.paused);
    assert!(s.resume().is_ok());
    assert!(!s.paused);
}

#[test]
fn toggling_flips_the_paused_flag_and_reports_it() {
    let mut s = start_recording(GONE_PID, "/rec/a.mkv".to_string());
    assert_eq!(toggle_recording_pause(&mut s).expect("tolerated"), true);
    assert!(s.paused);
    assert_eq!(toggle_recording_pause(&mut s).expect("tolerated"), false);
    assert!(!s.paused);
}

#[test]
fn stopping_a_paused_session_hands_back_the_output_path() {
    let mut s = start_recording(GONE_PID, "/rec/paused.mkv".to_string());
    assert!(s.pause().is_ok());
    let pending = stop_recording(s, false).expect("a vanished recorder is tolerated");
    assert_eq!(pending.output_path, "/rec/paused.mkv");
}

#[test]
fn stopping_an_already_exited_recorder_skips_the_interrupt() {
    let s = start_recording(GONE_PID, "/rec/done.mkv".to_string());
    let pending = stop_recording(s, true).expect("nothing to signal");
    assert_eq!(pending.output_path, "/rec/done.mkv");
}

#[test]
fn a_clean_exit_returns_the_path() {
    let s = start_recording(GONE_PID, "/rec/ok.mkv".to_string());
    let pending = stop_recording(s, true).expect("nothing to signal");
    assert_eq!(finish_recording(pending, true).expect("clean exit"), "/rec/ok.mkv");
}

#[test]
fn an_abnormal_exit_still_carries_the_path() {
    let s = start_recording(GONE_PID, "/rec/bad.mkv".to_string());
    let pending = stop_recording(s, true).expect("nothing to signal");
    match finish_recording(pending, false) {
        Err(CaptureError::RecorderExitedAbnormally { output_path }) => {
            assert_eq!(output_path, "/rec/bad.mkv")
        },
        _ => panic!("an abnormal exit must be reported"),
    }
}
