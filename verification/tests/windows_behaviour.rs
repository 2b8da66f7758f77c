use ncaptura::commands::RunOutcome;
use ncaptura::errors::CaptureError;
use ncaptura::windows::{focused_output_name, list_windows, sort_windows, window_from_fields,
    WindowInfo};

fn reply(stdout: &str) -> RunOutcome {
    RunOutcome {
        launched: true,
        exit_success: true,
        exit_code: Some(0),
        stdout: stdout.to_string(),
        stdout_utf8: true,
        stderr: String::new(),
    }
}

fn window(id: u64, title: &str, workspace_id: u64, is_focused: bool) -> WindowInfo {
    WindowInfo {
        id,
        title: title.to_string(),
        app_id: "app".to_string(),
        workspace_id,
        is_focused,
    }
}

#[test]
fn missing_fields_take_the_documented_defaults() {
    let w = window_from_fields(9, None, None, None, None);
    assert_eq!(w.id, 9);
    assert_eq!(w.title, "(untitled)");
    assert_eq!(w.app_id, "unknown");
    assert_eq!(w.workspace_id, 0);
    assert!(!w.is_focused);
}

#[test]
fn present_fields_are_kept() {
    let w = window_from_fields(
        9,
        Some("Term".to_string()),
        Some("term.app".to_string()),
        Some(3),
        Some(true),
    );
    assert_eq!(w.title, "Term");
    assert_eq!(w.app_id, "term.app");
    assert_eq!(w.workspace_id, 3);
    assert!(w.is_focused);
}

#[test]
fn sorting_puts_focused_first_then_workspace_then_title() {
    let input = vec![
        window(1, "zeta", 2, false),
        window(2, "alpha", 2, false),
        window(3, "mid", 1, false),
        window(4, "focus", 9, true),
    ];
    let sorted = sort_windows(input);
    let ids: Vec<u64> = sorted.iter().map(|w| w.id).collect();
    assert_eq!(ids, vec![4, 3, 2, 1]);
}

#[test]
fn sorting_any_permutation_gives_the_same_order() {
    let a = vec![
        window(1, "b", 1, false),
        window(2, "a", 1, false),
        window(3, "a", 0, false),
    ];
    let b = vec![
        window(3, "a", 0, false),
        window(1, "b", 1, false),
        window(2, "a", 1, false),
    ];
    let sa: Vec<u64> = sort_windows(a).iter().map(|w| w.id).collect();
    let sb: Vec<u64> = sort_windows(b).iter().map(|w| w.id).collect();
    assert_eq!(sa, vec![3, 2, 1]);
    assert_eq!(sa, sb);
}

#[test]
fn window_list_reply_parses_defaults_and_orders() {
    let json = "[{\"id\":1,\"workspace_id\":2,\"is_focused\":false},{\"id\":2,\"title\":\"Term\",\"workspace_id\":1,\"is_focused\":true}]";
    let ws = list_windows(&reply(json)).expect("the reply parses");
    assert_eq!(ws.len(), 2);
    assert_eq!(ws[0].id, 2);
    assert_eq!(ws[0].title, "Term");
    assert!(ws[0].is_focused);
    assert_eq!(ws[1].id, 1);
    assert_eq!(ws[1].title, "(untitled)");
    assert_eq!(ws[1].app_id, "unknown");
    assert_eq!(ws[1].workspace_id, 2);
    assert!(!ws[1].is_focused);
}

#[test]
fn window_entries_without_an_id_are_skipped() {
    let json = "[{\"title\":\"ghost\"},{\"id\":5,\"title\":\"real\"}]";
    let ws = list_windows(&reply(json)).expect("the reply parses");
    assert_eq!(ws.len(), 1);
    assert_eq!(ws[0].id, 5);
    assert_eq!(ws[0].title, "real");
}

#[test]
fn window_list_failures_keep_their_taxonomy() {
    let garbled = list_windows(&reply("not json"));
    assert!(matches!(garbled, Err(CaptureError::ParseFailed { .. })));
    let failed = RunOutcome {
        launched: true,
        exit_success: false,
        exit_code: Some(1),
        stdout: String::new(),
        stdout_utf8: true,
        stderr: "no session\n".to_string(),
    };
    match list_windows(&failed) {
        Err(CaptureError::ToolExecutionFailed { detail, .. }) => assert_eq!(detail, "no session"),
        _ => panic!("execution failure expected"),
    }
    let unlaunched = RunOutcome { launched: false, ..failed };
    assert!(matches!(
        list_windows(&unlaunched),
        Err(CaptureError::ToolInvocationFailed { .. })
    ));
}

#[test]
fn focused_output_name_accepts_both_reply_shapes() {
    let flat = focused_output_name(&reply("{\"name\":\"DP-1\"}")).expect("flat shape");
    assert_eq!(flat, "DP-1");
    let nested = focused_output_name(&reply(
        "{\"Ok\":{\"FocusedOutput\":{\"name\":\"eDP-1\",\"make\":\"x\"}}}",
    ))
    .expect("enveloped shape");
    assert_eq!(nested, "eDP-1");
}

#[test]
fn binary_output_is_a_parse_failure() {
    let mut outcome = reply("[]");
    outcome.stdout_utf8 = false;
    assert!(matches!(
        list_windows(&outcome),
        Err(CaptureError::ParseFailed { .. })
    ));
    let mut outcome = reply("{\"name\":\"DP-1\"}");
    outcome.stdout_utf8 = false;
    assert!(matches!(
        focused_output_name(&outcome),
        Err(CaptureError::ParseFailed { .. })
    ));
}

#[test]
fn the_flat_name_wins_over_the_enveloped_one() {
    let both = focused_output_name(&reply(
        "{\"name\":\"DP-1\",\"Ok\":{\"FocusedOutput\":{\"name\":\"eDP-1\"}}}",
    ))
    .expect("both shapes present");
    assert_eq!(both, "DP-1");
}

#[test]
fn focused_output_name_failures() {
    assert!(matches!(
        focused_output_name(&reply("{\"model\":\"x\"}")),
        Err(CaptureError::OutputNameNotFound)
    ));
    assert!(matches!(
        focused_output_name(&reply("][")),
        Err(CaptureError::ParseFailed { .. })
    ));
}
