use ncaptura::errors::CaptureError;
use ncaptura::state::{current_cli_recording_state, decode_state, encode_state,
    register_detached_recording, start_recording_detached, state_from_fields, state_record_path,
    stop_recording_detached, DetachedRecordingState};

// A positive id far above the kernel's process-id range: always gone.
const GONE_PID: u32 = 2147483647;

fn record(pid: u32, path: &str) -> DetachedRecordingState {
    DetachedRecordingState { pid, output_path: path.to_string() }
}

#[test]
fn the_record_text_is_one_json_object() {
    assert_eq!(
        encode_state(1234, "/rec/recording-region-20240102-030405.mkv"),
        "{\"pid\":1234,\"output_path\":\"/rec/recording-region-20240102-030405.mkv\"}"
    );
}

#[test]
fn the_record_text_escapes_the_path() {
    assert_eq!(
        encode_state(1, "a\"b\\c"),
        "{\"pid\":1,\"output_path\":\"a\\\"b\\\\c\"}"
    );
    assert_eq!(
        encode_state(1, "a\u{1}b\nc"),
        "{\"pid\":1,\"output_path\":\"a\\u0001b\\u000ac\"}"
    );
}

#[test]
fn a_written_record_decodes_to_the_same_fields() {
    let text = encode_state(4321, "/rec/with \"quotes\" and \\slashes\\.mkv");
    let st = decode_state(&text).expect("own encoding decodes");
    assert_eq!(st.pid, 4321);
    assert_eq!(st.output_path, "/rec/with \"quotes\" and \\slashes\\.mkv");
}

#[test]
fn malformed_records_are_corrupt() {
    assert!(matches!(decode_state("not json"), Err(CaptureError::StateCorrupt)));
    assert!(matches!(decode_state("{}"), Err(CaptureError::StateCorrupt)));
    assert!(matches!(
        decode_state("{\"pid\":\"x\",\"output_path\":\"p\"}"),
        Err(CaptureError::StateCorrupt)
    ));
    assert!(matches!(
        decode_state("{\"pid\":77}"),
        Err(CaptureError::StateCorrupt)
    ));
    assert!(matches!(
        decode_state("{\"pid\":0,\"output_path\":\"p\"}"),
        Err(CaptureError::StateCorrupt)
    ));
    assert!(matches!(
        decode_state("{\"pid\":2147483648,\"output_path\":\"p\"}"),
        Err(CaptureError::StateCorrupt)
    ));
}

#[test]
fn field_assembly_checks_presence_and_the_pid_range() {
    let st = state_from_fields(Some(10), Some("/p".to_string())).expect("both fields present");
    assert_eq!(st.pid, 10);
    assert_eq!(st.output_path, "/p");
    assert!(matches!(
        state_from_fields(None, Some("/p".to_string())),
        Err(CaptureError::StateCorrupt)
    ));
    assert!(matches!(state_from_fields(Some(10), None), Err(CaptureError::StateCorrupt)));
    assert!(matches!(
        state_from_fields(Some(u64::MAX), Some("/p".to_string())),
        Err(CaptureError::StateCorrupt)
    ));
}

#[test]
fn the_record_file_is_named_recording_json() {
    match state_record_path() {
        Ok(plan) => {
            assert_eq!(plan.file_path, format!("{}/recording.json", plan.dir));
            assert!(plan.dir.ends_with("/ncaptura"));
        },
        Err(e) => assert!(matches!(e, CaptureError::NoUserDirectory)),
    }
}

#[test]
fn a_missing_record_means_no_recording() {
    assert!(matches!(
        current_cli_recording_state(&None),
        Err(CaptureError::StateMissing)
    ));
}

#[test]
fn a_present_record_is_decoded() {
    let content = Some(encode_state(55, "/rec/r.mkv"));
    let st = current_cli_recording_state(&content).expect("the record decodes");
    assert_eq!(st.pid, 55);
    assert_eq!(st.output_path, "/rec/r.mkv");
    let garbled = Some("][".to_string());
    assert!(matches!(
        current_cli_recording_state(&garbled),
        Err(CaptureError::StateCorrupt)
    ));
}

#[test]
fn a_live_record_blocks_a_second_start() {
    let prior: Result<DetachedRecordingState, CaptureError> = Ok(record(GONE_PID, "/rec/a.mkv"));
    assert!(matches!(
        start_recording_detached(&prior),
        Err(CaptureError::AlreadyRecording)
    ));
}

#[test]
fn a_missing_or_corrupt_record_permits_a_start() {
    assert!(start_recording_detached(&Err(CaptureError::StateMissing)).is_ok());
    assert!(start_recording_detached(&Err(CaptureError::StateCorrupt)).is_ok());
}

#[test]
fn registration_persists_the_pid_and_path() {
    let permit = start_recording_detached(&Err(CaptureError::StateMissing)).expect("permitted");
    let (st, text) = register_detached_recording(permit, 1234, "/rec/new.mkv".to_string());
    assert_eq!(st.pid, 1234);
    assert_eq!(st.output_path, "/rec/new.mkv");
    assert_eq!(text, "{\"pid\":1234,\"output_path\":\"/rec/new.mkv\"}");
}

#[test]
fn stopping_clears_the_record_even_when_the_pid_is_gone() {
    let prior: Result<DetachedRecordingState, CaptureError> = Ok(record(GONE_PID, "/rec/a.mkv"));
    let out = stop_recording_detached(&prior);
    assert!(out.clear_state);
    assert_eq!(out.result.expect("a vanished recorder is tolerated"), "/rec/a.mkv");
}

#[test]
fn stopping_without_a_record_clears_nothing() {
    let out = stop_recording_detached(&Err(CaptureError::StateMissing));
    assert!(!out.clear_state);
    assert!(matches!(out.result, Err(CaptureError::StateMissing)));
    let out = stop_recording_detached(&Err(CaptureError::StateCorrupt));
    assert!(!out.clear_state);
    assert!(matches!(out.result, Err(CaptureError::StateCorrupt)));
}
