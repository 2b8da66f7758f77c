//! What to run and with which arguments: capture targets, resolved target
//! flags, external-tool invocations, and the interpretation of what one
//! synchronous run produced.

use vstd::prelude::*;

use crate::errors::CaptureError;
use crate::output::{build_output_path, OutputPathPlan};
use crate::text::{contains_seq, dec_str, int_str, trim, trim_spec, u64_to_string};
use crate::time::timestamp_chars;

verus! {

/// What a capture or recording is aimed at.
#[derive(Clone, Copy, Debug, PartialEq, Eq, Structural)]
pub enum CaptureTarget {
    Region,
    Fullscreen,
}

impl CaptureTarget {
    /// The short name that goes into file names.
    pub open spec fn slug_spec(self) -> Seq<char> {
        match self {
            CaptureTarget::Region => "region"@,
            CaptureTarget::Fullscreen => "fullscreen"@,
        }
    }

    /// The short name that goes into file names.
    pub fn slug(self) -> (r: &'static str)
        ensures
            r@ == self.slug_spec(),
    {
        match self {
            CaptureTarget::Region => "region",
            CaptureTarget::Fullscreen => "fullscreen",
        }
    }
}

/// A capture target after the interactive or IPC step that pins it down:
/// a selected region geometry, a named output, or the whole screen when the
/// focused output could not be named (the capture tool then picks).
#[derive(Clone, Debug)]
pub enum ResolvedTarget {
    Geometry(String),
    Output(String),
    WholeScreen,
}

/// One external program invocation: the program and its argument list, in
/// order.  The shell spawns it verbatim.
#[derive(Clone, Debug)]
pub struct CommandSpec {
    pub program: String,
    pub args: Vec<String>,
}

/// The flags that aim a capture or recorder invocation at its target.
pub open spec fn target_flags(t: ResolvedTarget) -> Seq<Seq<char>> {
    match t {
        ResolvedTarget::Geometry(g) => seq!["-g"@, g@],
        ResolvedTarget::Output(o) => seq!["-o"@, o@],
        ResolvedTarget::WholeScreen => Seq::<Seq<char>>::empty(),
    }
}

fn push_target_flags(args: &mut Vec<String>, target: &ResolvedTarget)
    ensures
        final(args).deep_view() == old(args).deep_view() + target_flags(*target),
{
    match target {
        ResolvedTarget::Geometry(g) => {
            args.push("-g".to_owned());
            args.push(g.clone());
        },
        ResolvedTarget::Output(o) => {
            args.push("-o".to_owned());
            args.push(o.clone());
        },
        ResolvedTarget::WholeScreen => {},
    }
    proof {
        assert(args.deep_view() =~= old(args).deep_view() + target_flags(*target));
    }
}

/// The screenshot tool's argument list: the target flags, then the
/// destination path.
pub open spec fn screenshot_args(t: ResolvedTarget, path: Seq<char>) -> Seq<Seq<char>> {
    target_flags(t).push(path)
}

/// The invocation that captures a still image of `target` into
/// `output_path`.
pub fn screenshot_command(target: &ResolvedTarget, output_path: &str) -> (c: CommandSpec)
    ensures
        c.program@ == "grim"@,
        c.args.deep_view() == screenshot_args(*target, output_path@),
{
    let mut args: Vec<String> = Vec::new();
    push_target_flags(&mut args, target);
    args.push(output_path.to_owned());
    proof {
        assert(args.deep_view() =~= screenshot_args(*target, output_path@));
    }
    CommandSpec { program: "grim".to_owned(), args }
}

/// The invocation that captures one window by its compositor id into
/// `output_path`.
pub fn take_window_screenshot(window_id: u64, output_path: &str) -> (c: CommandSpec)
    ensures
        c.program@ == "grim"@,
        c.args.deep_view() == seq!["-T"@, dec_str(window_id as nat), output_path@],
{
    let mut args: Vec<String> = Vec::new();
    args.push("-T".to_owned());
    args.push(u64_to_string(window_id));
    args.push(output_path.to_owned());
    proof {
        assert(args.deep_view() =~= seq!["-T"@, dec_str(window_id as nat), output_path@]);
    }
    CommandSpec { program: "grim".to_owned(), args }
}

/// The two compositor invocations that screenshot one window through the
/// compositor itself: first focus the window, then trigger its
/// screenshot action.
pub fn take_window_screenshot_via_niri(window_id: u64) -> (r: (CommandSpec, CommandSpec))
    ensures
        r.0.program@ == "niri"@,
        r.0.args.deep_view() == seq![
            "msg"@,
            "action"@,
            "focus-window"@,
            "--id"@,
            dec_str(window_id as nat),
        ],
        r.1.program@ == "niri"@,
        r.1.args.deep_view() == seq!["msg"@, "action"@, "screenshot-window"@],
{
    let mut focus_args: Vec<String> = Vec::new();
    focus_args.push("msg".to_owned());
    focus_args.push("action".to_owned());
    focus_args.push("focus-window".to_owned());
    focus_args.push("--id".to_owned());
    focus_args.push(u64_to_string(window_id));
    let mut shot_args: Vec<String> = Vec::new();
    shot_args.push("msg".to_owned());
    shot_args.push("action".to_owned());
    shot_args.push("screenshot-window".to_owned());
    proof {
        assert(focus_args.deep_view() =~= seq![
            "msg"@,
            "action"@,
            "focus-window"@,
            "--id"@,
            dec_str(window_id as nat),
        ]);
        assert(shot_args.deep_view() =~= seq!["msg"@, "action"@, "screenshot-window"@]);
    }
    (
        CommandSpec { program: "niri".to_owned(), args: focus_args },
        CommandSpec { program: "niri".to_owned(), args: shot_args },
    )
}

/// How a recording treats audio: none, the recorder's default source, or a
/// named capture device.
#[derive(Clone, Debug)]
pub enum AudioChoice {
    NoAudio,
    DefaultAudio,
    Device(String),
}

/// The flags that select a recording's audio source.
pub open spec fn audio_flags(a: AudioChoice) -> Seq<Seq<char>> {
    match a {
        AudioChoice::NoAudio => Seq::<Seq<char>>::empty(),
        AudioChoice::DefaultAudio => seq!["--audio"@],
        AudioChoice::Device(d) => seq!["--audio="@ + d@],
    }
}

/// The recorder's argument list: target flags, audio flags, then `-f` and
/// the destination path.
pub open spec fn recorder_args(t: ResolvedTarget, a: AudioChoice, path: Seq<char>) -> Seq<
    Seq<char>,
> {
    target_flags(t) + audio_flags(a) + seq!["-f"@, path]
}

/// The invocation that records `target` into `output_path` with the chosen
/// audio source.  The shell spawns it and keeps only the child's process id.
pub fn recorder_command(target: &ResolvedTarget, audio: &AudioChoice, output_path: &str) -> (c:
    CommandSpec)
    ensures
        c.program@ == "wf-recorder"@,
        c.args.deep_view() == recorder_args(*target, *audio, output_path@),
{
    let mut args: Vec<String> = Vec::new();
    push_target_flags(&mut args, target);
    match audio {
        AudioChoice::NoAudio => {},
        AudioChoice::DefaultAudio => {
            args.push("--audio".to_owned());
        },
        AudioChoice::Device(d) => {
            args.push("--audio=".to_owned().concat(d.as_str()));
        },
    }
    args.push("-f".to_owned());
    args.push(output_path.to_owned());
    proof {
        assert(args.deep_view() =~= recorder_args(*target, *audio, output_path@));
    }
    CommandSpec { program: "wf-recorder".to_owned(), args }
}

/// What the shell observed from one synchronous run of an external program.
/// `launched == false` means the program could not be started at all; the
/// remaining fields then carry nothing.  `stdout_utf8` says whether the
/// program's standard output was valid UTF-8: only then does `stdout` hold
/// it exactly (otherwise a lossy rendering, good for messages alone).
#[derive(Clone, Debug)]
pub struct RunOutcome {
    pub launched: bool,
    pub exit_success: bool,
    pub exit_code: Option<i32>,
    pub stdout: String,
    pub stdout_utf8: bool,
    pub stderr: String,
}

/// The text reported for a non-zero exit with silent stderr.
pub open spec fn exit_code_text(code: Option<i32>) -> Seq<char> {
    match code {
        Some(n) => "exit code "@ + int_str(n as int),
        None => "terminated by a signal"@,
    }
}

/// What a failed run reports: the trimmed stderr when it said anything,
/// otherwise the exit code.
pub open spec fn exec_failure_detail(stderr: Seq<char>, code: Option<i32>) -> Seq<char> {
    if trim_spec(stderr).len() > 0 {
        trim_spec(stderr)
    } else {
        exit_code_text(code)
    }
}

/// Converts one observed run into the operation's result: success for a
/// clean exit, a launch failure when the program never started, and an
/// execution failure carrying the trimmed stderr (or the exit code when
/// stderr was silent) otherwise.
pub fn command_result(outcome: &RunOutcome, context: &str) -> (r: Result<(), CaptureError>)
    ensures
        !outcome.launched ==> (r matches Err(e) && e matches CaptureError::ToolInvocationFailed {
            context: c,
        } && c@ == context@),
        outcome.launched && outcome.exit_success ==> r is Ok,
        outcome.launched && !outcome.exit_success ==> (r matches Err(e)
            && e matches CaptureError::ToolExecutionFailed { context: c, detail: d } && c@
            == context@ && d@ == exec_failure_detail(outcome.stderr@, outcome.exit_code)),
{
    if !outcome.launched {
        return Err(CaptureError::ToolInvocationFailed { context: context.to_owned() });
    }
    if outcome.exit_success {
        return Ok(());
    }
    let stderr_trimmed = trim(outcome.stderr.as_str());
    let detail = if stderr_trimmed.as_str().unicode_len() > 0 {
        stderr_trimmed
    } else {
        match outcome.exit_code {
            Some(n) => {
                let t = "exit code ".to_owned().concat(
                    crate::text::i32_to_string(n).as_str(),
                );
                t
            },
            None => "terminated by a signal".to_owned(),
        }
    };
    Err(CaptureError::ToolExecutionFailed { context: context.to_owned(), detail })
}

/// Interprets the region-selection tool's run: a launch failure is its own
/// error; a non-zero exit or an empty (after trimming) selection means the
/// pick was cancelled; output that is not text cannot name a region; anything
/// else is the geometry token, trimmed.
pub fn pick_region_geometry(outcome: &RunOutcome) -> (r: Result<String, CaptureError>)
    ensures
        !outcome.launched ==> (r matches Err(e) && e matches CaptureError::ToolInvocationFailed {
            context: c,
        } && c@ == "slurp"@),
        outcome.launched && !outcome.exit_success ==> (r matches Err(e)
            && e is SelectionCancelled),
        outcome.launched && outcome.exit_success && !outcome.stdout_utf8 ==> (r matches Err(e)
            && e matches CaptureError::ParseFailed { context: c } && c@ == "slurp"@),
        outcome.launched && outcome.exit_success && outcome.stdout_utf8 && trim_spec(
            outcome.stdout@,
        ).len() == 0 ==> (r matches Err(e) && e is SelectionCancelled),
        outcome.launched && outcome.exit_success && outcome.stdout_utf8 && trim_spec(
            outcome.stdout@,
        ).len() > 0 ==> (r matches Ok(g) && g@ == trim_spec(outcome.stdout@)),
{
    if !outcome.launched {
        return Err(CaptureError::ToolInvocationFailed { context: "slurp".to_owned() });
    }
    if !outcome.exit_success {
        return Err(CaptureError::SelectionCancelled);
    }
    if !outcome.stdout_utf8 {
        return Err(CaptureError::ParseFailed { context: "slurp".to_owned() });
    }
    let geometry = trim(outcome.stdout.as_str());
    if geometry.as_str().unicode_len() == 0 {
        return Err(CaptureError::SelectionCancelled);
    }
    Ok(geometry)
}

/// Derives the system-mix capture device from the default-sink query's run:
/// any failure, a reply that is not text, and an empty reply all fall back
/// to no preferred device; a named sink gains the `.monitor` suffix of its
/// loopback source.
pub fn default_system_mix_audio_device(outcome: &RunOutcome) -> (r: Option<String>)
    ensures
        !outcome.launched || !outcome.exit_success || !outcome.stdout_utf8 || trim_spec(
            outcome.stdout@,
        ).len() == 0 ==> r is None,
        outcome.launched && outcome.exit_success && outcome.stdout_utf8 && trim_spec(
            outcome.stdout@,
        ).len() > 0 ==> (r matches Some(d) && d@ == trim_spec(outcome.stdout@) + ".monitor"@),
{
    if !outcome.launched || !outcome.exit_success || !outcome.stdout_utf8 {
        return None;
    }
    let sink = trim(outcome.stdout.as_str());
    if sink.as_str().unicode_len() == 0 {
        return None;
    }
    Some(sink.concat(".monitor"))
}

/// The audio choice for a recording: none unless asked for, the resolved
/// device when the resolver named one, the recorder's default otherwise.
pub fn audio_choice(with_audio: bool, device: Option<String>) -> (r: AudioChoice)
    ensures
        !with_audio ==> r is NoAudio,
        with_audio ==> (device matches Some(d) ==> (r matches AudioChoice::Device(x) && x@
            == d@)),
        with_audio && device is None ==> r is DefaultAudio,
{
    if !with_audio {
        AudioChoice::NoAudio
    } else {
        match device {
            Some(d) => AudioChoice::Device(d),
            None => AudioChoice::DefaultAudio,
        }
    }
}

/// The invocation of the interactive region selector: no arguments, the
/// geometry arrives on its standard output.
pub fn selection_command() -> (c: CommandSpec)
    ensures
        c.program@ == "slurp"@,
        c.args.deep_view() == Seq::<Seq<char>>::empty(),
{
    let args: Vec<String> = Vec::new();
    proof {
        assert(args.deep_view() =~= Seq::<Seq<char>>::empty());
    }
    CommandSpec { program: "slurp".to_owned(), args }
}

/// The compositor query that lists the open windows as JSON.
pub fn list_windows_command() -> (c: CommandSpec)
    ensures
        c.program@ == "niri"@,
        c.args.deep_view() == seq!["msg"@, "--json"@, "windows"@],
{
    let mut args: Vec<String> = Vec::new();
    args.push("msg".to_owned());
    args.push("--json".to_owned());
    args.push("windows".to_owned());
    proof {
        assert(args.deep_view() =~= seq!["msg"@, "--json"@, "windows"@]);
    }
    CommandSpec { program: "niri".to_owned(), args }
}

/// The compositor query that names the focused output as JSON.
pub fn focused_output_command() -> (c: CommandSpec)
    ensures
        c.program@ == "niri"@,
        c.args.deep_view() == seq!["msg"@, "--json"@, "focused-output"@],
{
    let mut args: Vec<String> = Vec::new();
    args.push("msg".to_owned());
    args.push("--json".to_owned());
    args.push("focused-output".to_owned());
    proof {
        assert(args.deep_view() =~= seq!["msg"@, "--json"@, "focused-output"@]);
    }
    CommandSpec { program: "niri".to_owned(), args }
}

/// The audio-mixer query that names the default sink.
pub fn default_sink_command() -> (c: CommandSpec)
    ensures
        c.program@ == "pactl"@,
        c.args.deep_view() == seq!["get-default-sink"@],
{
    let mut args: Vec<String> = Vec::new();
    args.push("get-default-sink".to_owned());
    proof {
        assert(args.deep_view() =~= seq!["get-default-sink"@]);
    }
    CommandSpec { program: "pactl".to_owned(), args }
}

/// Resolves a fullscreen capture from the focused-output query's result: a
/// named output is captured by name; any failure to name one is tolerated,
/// and the capture tool is left to pick the screen itself.
pub fn resolved_fullscreen_target(name: Result<String, CaptureError>) -> (r: ResolvedTarget)
    ensures
        name matches Ok(n) ==> (r matches ResolvedTarget::Output(o) && o@ == n@),
        name is Err ==> r is WholeScreen,
{
    match name {
        Ok(n) => ResolvedTarget::Output(n),
        Err(_) => ResolvedTarget::WholeScreen,
    }
}

/// Lays out where the screenshot for `target` will be written: the
/// `screenshots` directory under the resolved base, and a
/// `screenshot-<slug>-<timestamp>.png` file inside it.  The shell resolves
/// the target, creates the directory, and invokes `screenshot_command`'s
/// result.
pub fn take_screenshot(target: CaptureTarget) -> (r: Result<OutputPathPlan, CaptureError>)
    ensures
        r matches Ok(plan) ==> plan.wf("screenshots"@, "screenshot-"@ + target.slug_spec(), "png"@),
        r matches Err(e) ==> e is NoUserDirectory,
{
    let prefix = "screenshot-".to_owned().concat(target.slug());
    build_output_path("screenshots", prefix.as_str(), "png")
}

/// Lays out where the screenshot of one window will be written: the
/// `screenshots` directory under the resolved base, and a
/// `screenshot-window-<id>-<timestamp>.png` file inside it.  The shell
/// creates the directory and invokes `take_window_screenshot`'s result.
pub fn window_screenshot_plan(window_id: u64) -> (r: Result<OutputPathPlan, CaptureError>)
    ensures
        r matches Ok(plan) ==> plan.wf(
            "screenshots"@,
            "screenshot-window-"@ + dec_str(window_id as nat),
            "png"@,
        ),
        r matches Err(e) ==> e is NoUserDirectory,
{
    let prefix = "screenshot-window-".to_owned().concat(u64_to_string(window_id).as_str());
    build_output_path("screenshots", prefix.as_str(), "png")
}

/// Lays out where the recording for `target` will be written: the
/// `recordings` directory under the resolved base, and a
/// `recording-<slug>-<timestamp>.mkv` file inside it.
pub fn recording_output_plan(target: CaptureTarget) -> (r: Result<OutputPathPlan, CaptureError>)
    ensures
        r matches Ok(plan) ==> plan.wf("recordings"@, "recording-"@ + target.slug_spec(), "mkv"@),
        r matches Err(e) ==> e is NoUserDirectory,
{
    let prefix = "recording-".to_owned().concat(target.slug());
    build_output_path("recordings", prefix.as_str(), "mkv")
}

/// The invocation that streams a saved image into the clipboard; the shell
/// pipes the file's bytes to its standard input.
pub fn clipboard_command() -> (c: CommandSpec)
    ensures
        c.program@ == "wl-copy"@,
        c.args.deep_view() == seq!["--type"@, "image/png"@],
{
    let mut args: Vec<String> = Vec::new();
    args.push("--type".to_owned());
    args.push("image/png".to_owned());
    proof {
        assert(args.deep_view() =~= seq!["--type"@, "image/png"@]);
    }
    CommandSpec { program: "wl-copy".to_owned(), args }
}

/// For every capture target, any screenshot or recording plan the library
/// lays out names a file whose path carries the target's slug and the plan's
/// complete timestamp text; for common-era years the timestamp is the
/// fifteen-character `YYYYMMDD-HHMMSS` shape (see
/// `crate::output::lemma_timestamp_shape`).  Two plans of the same second
/// collide by design: see `crate::output::lemma_same_second_collides`.
pub proof fn lemma_plans_carry_slug_and_timestamp(target: CaptureTarget, plan: OutputPathPlan)
    requires
        plan.wf("screenshots"@, "screenshot-"@ + target.slug_spec(), "png"@) || plan.wf(
            "recordings"@,
            "recording-"@ + target.slug_spec(),
            "mkv"@,
        ),
    ensures
        contains_seq(plan.file_path@, target.slug_spec()),
        contains_seq(plan.file_path@, timestamp_chars(plan.timestamp)),
{
    if plan.wf("screenshots"@, "screenshot-"@ + target.slug_spec(), "png"@) {
        crate::output::lemma_plan_path_contains_slug(
            plan,
            "screenshots"@,
            "screenshot-"@,
            target.slug_spec(),
            "png"@,
        );
        crate::output::lemma_plan_path_contains_timestamp(
            plan,
            "screenshots"@,
            "screenshot-"@ + target.slug_spec(),
            "png"@,
        );
    } else {
        crate::output::lemma_plan_path_contains_slug(
            plan,
            "recordings"@,
            "recording-"@,
            target.slug_spec(),
            "mkv"@,
        );
        crate::output::lemma_plan_path_contains_timestamp(
            plan,
            "recordings"@,
            "recording-"@ + target.slug_spec(),
            "mkv"@,
        );
    }
}

/// A screenshot's report: the saved path and, separately, how the optional
/// clipboard copy went.  Partial success is preserved: a clipboard failure
/// never hides where the screenshot was saved.
pub struct ScreenshotReport {
    pub output_path: String,
    pub clipboard_error: Option<CaptureError>,
}

/// Combines a saved screenshot with the outcome of the optional clipboard
/// copy: the path is always reported; a copy that never ran reports nothing
/// more; a copy that ran is judged exactly as any other tool run, and its
/// failure stands beside the path, not in place of it.
pub fn take_screenshot_with_clipboard(output_path: String, clipboard_run: Option<&RunOutcome>) -> (
    r: ScreenshotReport)
    ensures
        r.output_path == output_path,
        clipboard_run is None ==> r.clipboard_error is None,
        clipboard_run matches Some(o) ==> {
            &&& (o.launched && o.exit_success) <==> r.clipboard_error is None
            &&& !o.launched ==> (r.clipboard_error matches Some(e)
                && e matches CaptureError::ToolInvocationFailed { context: c } && c@
                == "clipboard"@)
            &&& o.launched && !o.exit_success ==> (r.clipboard_error matches Some(e)
                && e matches CaptureError::ToolExecutionFailed { context: c, detail: d } && c@
                == "clipboard"@ && d@ == exec_failure_detail(o.stderr@, o.exit_code))
        },
{
    let clipboard_error = match clipboard_run {
        None => None,
        Some(o) => match command_result(o, "clipboard") {
            Ok(_) => None,
            Err(e) => Some(e),
        },
    };
    ScreenshotReport { output_path, clipboard_error }
}

/// The error text by which an unsupported window-capture protocol is
/// recognised.  Matching on message text is brittle across compositor
/// versions and locales; it stands in for a capability probe the IPC does
/// not offer.
pub open spec fn window_protocol_unsupported_text() -> Seq<char> {
    "compositor doesn't support the screen capture protocol"@
}

/// True when a tool failure's message text reports that the compositor
/// cannot capture single windows, so a caller can fall back to the
/// compositor's own screenshot action.
pub fn is_window_protocol_unsupported_error(message: &str) -> (r: bool)
    ensures
        r == contains_seq(message@, window_protocol_unsupported_text()),
{
    crate::text::contains_str(message, "compositor doesn't support the screen capture protocol")
}

} // verus!
