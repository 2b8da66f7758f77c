use ncaptura::commands::{audio_choice, clipboard_command, command_result, default_sink_command,
    default_system_mix_audio_device, focused_output_command, list_windows_command,
    pick_region_geometry, recorder_command, resolved_fullscreen_target, screenshot_command,
    selection_command, take_screenshot_with_clipboard, take_window_screenshot,
    take_window_screenshot_via_niri, AudioChoice, CaptureTarget, ResolvedTarget, RunOutcome};
use ncaptura::errors::CaptureError;

fn ran(exit_success: bool, exit_code: Option<i32>, stdout: &str, stderr: &str) -> RunOutcome {
    RunOutcome {
        launched: true,
        exit_success,
        exit_code,
        stdout: stdout.to_string(),
        stdout_utf8: true,
        stderr: stderr.to_string(),
    }
}

fn never_started() -> RunOutcome {
    RunOutcome {
        launched: false,
        exit_success: false,
        exit_code: None,
        stdout: String::new(),
        stdout_utf8: true,
        stderr: String::new(),
    }
}

#[test]
fn target_slugs() {
    assert_eq!(CaptureTarget::Region.slug(), "region");
    assert_eq!(CaptureTarget::Fullscreen.slug(), "fullscreen");
}

#[test]
fn screenshot_of_a_named_output_uses_the_o_flag() {
    let c = screenshot_command(
        &ResolvedTarget::Output("DP-1".to_string()),
        "/pics/screenshot-fullscreen-20240102-030405.png",
    );
    assert_eq!(c.program, "grim");
    assert_eq!(c.args, vec!["-o", "DP-1", "/pics/screenshot-fullscreen-20240102-030405.png"]);
}

#[test]
fn screenshot_of_a_region_uses_the_g_flag() {
    let c = screenshot_command(&ResolvedTarget::Geometry("10,20 300x200".to_string()), "/p.png");
    assert_eq!(c.program, "grim");
    assert_eq!(c.args, vec!["-g", "10,20 300x200", "/p.png"]);
}

#[test]
fn screenshot_of_the_whole_screen_has_no_target_flag() {
    let c = screenshot_command(&ResolvedTarget::WholeScreen, "/p.png");
    assert_eq!(c.args, vec!["/p.png"]);
}

#[test]
fn window_screenshot_names_the_window_id() {
    let c = take_window_screenshot(7, "/p.png");
    assert_eq!(c.program, "grim");
    assert_eq!(c.args, vec!["-T", "7", "/p.png"]);
}

#[test]
fn compositor_window_screenshot_focuses_then_shoots() {
    let (focus, shot) = take_window_screenshot_via_niri(42);
    assert_eq!(focus.program, "niri");
    assert_eq!(focus.args, vec!["msg", "action", "focus-window", "--id", "42"]);
    assert_eq!(shot.program, "niri");
    assert_eq!(shot.args, vec!["msg", "action", "screenshot-window"]);
}

#[test]
fn recorder_invocation_for_region_with_device_audio() {
    let c = recorder_command(
        &ResolvedTarget::Geometry("10,20 300x200".to_string()),
        &AudioChoice::Device("alsa_output.pci.monitor".to_string()),
        "/rec/recording-region-20240102-030405.mkv",
    );
    assert_eq!(c.program, "wf-recorder");
    assert_eq!(
        c.args,
        vec![
            "-g",
            "10,20 300x200",
            "--audio=alsa_output.pci.monitor",
            "-f",
            "/rec/recording-region-20240102-030405.mkv"
        ]
    );
}

#[test]
fn recorder_invocation_without_audio_and_with_default_audio() {
    let silent = recorder_command(&ResolvedTarget::WholeScreen, &AudioChoice::NoAudio, "/r.mkv");
    assert_eq!(silent.args, vec!["-f", "/r.mkv"]);
    let default = recorder_command(
        &ResolvedTarget::Output("DP-1".to_string()),
        &AudioChoice::DefaultAudio,
        "/r.mkv",
    );
    assert_eq!(default.args, vec!["-o", "DP-1", "--audio", "-f", "/r.mkv"]);
}

#[test]
fn clipboard_invocation_reads_png_from_stdin() {
    let c = clipboard_command();
    assert_eq!(c.program, "wl-copy");
    assert_eq!(c.args, vec!["--type", "image/png"]);
}

#[test]
fn a_clean_run_succeeds() {
    assert!(command_result(&ran(true, Some(0), "", ""), "grim").is_ok());
}

#[test]
fn a_run_that_never_started_is_an_invocation_failure() {
    match command_result(&never_started(), "grim") {
        Err(CaptureError::ToolInvocationFailed { context }) => assert_eq!(context, "grim"),
        _ => panic!("launch failure expected"),
    }
}

#[test]
fn a_failed_run_reports_trimmed_stderr() {
    match command_result(&ran(false, Some(1), "", "  boom happened \n"), "grim") {
        Err(CaptureError::ToolExecutionFailed { context, detail }) => {
            assert_eq!(context, "grim");
            assert_eq!(detail, "boom happened");
        },
        _ => panic!("execution failure expected"),
    }
}

#[test]
fn a_silently_failed_run_reports_the_exit_code() {
    match command_result(&ran(false, Some(3), "", "   "), "grim") {
        Err(CaptureError::ToolExecutionFailed { detail, .. }) => assert_eq!(detail, "exit code 3"),
        _ => panic!("execution failure expected"),
    }
    match command_result(&ran(false, None, "", ""), "grim") {
        Err(CaptureError::ToolExecutionFailed { detail, .. }) => {
            assert_eq!(detail, "terminated by a signal")
        },
        _ => panic!("execution failure expected"),
    }
}

#[test]
fn region_pick_trims_the_geometry() {
    match pick_region_geometry(&ran(true, Some(0), " 10,20 300x200\n", "")) {
        Ok(g) => assert_eq!(g, "10,20 300x200"),
        Err(_) => panic!("a geometry was selected"),
    }
}

#[test]
fn region_pick_cancel_paths() {
    assert!(matches!(
        pick_region_geometry(&ran(false, Some(1), "", "")),
        Err(CaptureError::SelectionCancelled)
    ));
    assert!(matches!(
        pick_region_geometry(&ran(true, Some(0), "  \n", "")),
        Err(CaptureError::SelectionCancelled)
    ));
    match pick_region_geometry(&never_started()) {
        Err(CaptureError::ToolInvocationFailed { context }) => assert_eq!(context, "slurp"),
        _ => panic!("launch failure expected"),
    }
}

#[test]
fn audio_device_gains_the_monitor_suffix() {
    match default_system_mix_audio_device(&ran(true, Some(0), "alsa_output.pci\n", "")) {
        Some(d) => assert_eq!(d, "alsa_output.pci.monitor"),
        None => panic!("a sink was named"),
    }
}

#[test]
fn audio_device_falls_back_on_any_failure() {
    assert!(default_system_mix_audio_device(&never_started()).is_none());
    assert!(default_system_mix_audio_device(&ran(false, Some(1), "sink", "")).is_none());
    assert!(default_system_mix_audio_device(&ran(true, Some(0), "  \n", "")).is_none());
}

#[test]
fn binary_tool_output_never_names_a_device_or_region() {
    let mut sink = ran(true, Some(0), "alsa_output.pci", "");
    sink.stdout_utf8 = false;
    assert!(default_system_mix_audio_device(&sink).is_none());
    let mut pick = ran(true, Some(0), "10,20 300x200", "");
    pick.stdout_utf8 = false;
    match pick_region_geometry(&pick) {
        Err(CaptureError::ParseFailed { context }) => assert_eq!(context, "slurp"),
        _ => panic!("binary selector output cannot name a region"),
    }
}

#[test]
fn audio_choice_follows_the_request_and_the_resolver() {
    assert!(matches!(audio_choice(false, Some("s".to_string())), AudioChoice::NoAudio));
    assert!(matches!(audio_choice(true, None), AudioChoice::DefaultAudio));
    match audio_choice(true, Some("sink.monitor".to_string())) {
        AudioChoice::Device(d) => assert_eq!(d, "sink.monitor"),
        _ => panic!("the named device wins"),
    }
}

#[test]
fn the_one_shot_tool_invocations_are_fixed() {
    let select = selection_command();
    assert_eq!(select.program, "slurp");
    assert!(select.args.is_empty());
    let list = list_windows_command();
    assert_eq!(list.program, "niri");
    assert_eq!(list.args, vec!["msg", "--json", "windows"]);
    let focused = focused_output_command();
    assert_eq!(focused.program, "niri");
    assert_eq!(focused.args, vec!["msg", "--json", "focused-output"]);
    let sink = default_sink_command();
    assert_eq!(sink.program, "pactl");
    assert_eq!(sink.args, vec!["get-default-sink"]);
}

#[test]
fn a_clipboard_failure_never_hides_the_saved_path() {
    let report = take_screenshot_with_clipboard(
        "/pics/shot.png".to_string(),
        Some(&ran(false, Some(1), "", "clipboard gone\n")),
    );
    assert_eq!(report.output_path, "/pics/shot.png");
    match report.clipboard_error {
        Some(CaptureError::ToolExecutionFailed { context, detail }) => {
            assert_eq!(context, "clipboard");
            assert_eq!(detail, "clipboard gone");
        },
        _ => panic!("the clipboard failure must be reported beside the path"),
    }
}

#[test]
fn a_clean_or_skipped_clipboard_copy_reports_nothing_more() {
    let skipped = take_screenshot_with_clipboard("/pics/a.png".to_string(), None);
    assert!(skipped.clipboard_error.is_none());
    let copied =
        take_screenshot_with_clipboard("/pics/a.png".to_string(), Some(&ran(true, Some(0), "", "")));
    assert!(copied.clipboard_error.is_none());
}

#[test]
fn fullscreen_resolution_tolerates_a_nameless_output() {
    match resolved_fullscreen_target(Ok("DP-1".to_string())) {
        ResolvedTarget::Output(o) => assert_eq!(o, "DP-1"),
        _ => panic!("the named output wins"),
    }
    assert!(matches!(
        resolved_fullscreen_target(Err(CaptureError::OutputNameNotFound)),
        ResolvedTarget::WholeScreen
    ));
}
