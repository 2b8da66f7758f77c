//! The durable detached-recording record: its JSON encoding, its decoding,
//! the guard that keeps a second recording from starting, and the stop that
//! always clears a decodable record.

use vstd::prelude::*;

use crate::errors::CaptureError;
use crate::signals::{send_signal, signal_result, valid_pid, SignalKind};
use crate::text::{dec_str, push_char, u64_to_string};

verus! {

/// The `pid` member the record text parses to: present exactly when the
/// text is a JSON object whose `pid` is an unsigned integer.
pub uninterp spec fn state_pid_of(s: Seq<char>) -> Option<u64>;

/// The `output_path` member the record text parses to: present exactly when
/// the text is a JSON object whose `output_path` is a string.
pub uninterp spec fn state_path_of(s: Seq<char>) -> Option<Seq<char>>;

/// Relies on serde_json (`from_str`, `Value::get`, `Value::as_u64`,
/// `Value::as_str`): parses the record text and reads its two members, both
/// absent when the text does not parse.  The result is a function of the
/// text alone.
#[verifier::external_body]
fn parse_state_fields(content: &str) -> (r: (Option<u64>, Option<String>))
    ensures
        r.0 == state_pid_of(content@),
        r.1.deep_view() == state_path_of(content@),
{
    let parsed: Option<serde_json::Value> = serde_json::from_str(content).ok();
    match parsed {
        None => (None, None),
        Some(v) => (
            v.get("pid").and_then(serde_json::Value::as_u64),
            v.get("output_path").and_then(serde_json::Value::as_str).map(str::to_owned),
        ),
    }
}

/// Where the record file lives: the directory that must exist and the file
/// inside it.
pub struct StateStorePlan {
    pub dir: String,
    pub file_path: String,
}

/// Resolves the record file's location: `recording.json` under the per-user
/// state directory.  Fails only when no user directory exists.
pub fn state_record_path() -> (r: Result<StateStorePlan, CaptureError>)
    ensures
        r matches Ok(p) ==> p.file_path@ == p.dir@ + "/recording.json"@,
        r matches Err(e) ==> e is NoUserDirectory,
{
    match crate::output::state_store_dir() {
        Ok(dir) => {
            let file_path = dir.clone().concat("/recording.json");
            Ok(StateStorePlan { dir, file_path })
        },
        Err(e) => Err(e),
    }
}

/// The durable record of a recording that outlives the process that started
/// it: the recorder's process id and the path it is writing.
#[derive(Clone, Debug)]
pub struct DetachedRecordingState {
    pub pid: u32,
    pub output_path: String,
}

impl DetachedRecordingState {
    /// The record points at a process the kernel could have issued.
    pub open spec fn wf(self) -> bool {
        valid_pid(self.pid)
    }
}

/// The hexadecimal digit character for one value below sixteen.
pub open spec fn hex_digit(d: nat) -> char {
    if d == 0 {
        '0'
    } else if d == 1 {
        '1'
    } else if d == 2 {
        '2'
    } else if d == 3 {
        '3'
    } else if d == 4 {
        '4'
    } else if d == 5 {
        '5'
    } else if d == 6 {
        '6'
    } else if d == 7 {
        '7'
    } else if d == 8 {
        '8'
    } else if d == 9 {
        '9'
    } else if d == 10 {
        'a'
    } else if d == 11 {
        'b'
    } else if d == 12 {
        'c'
    } else if d == 13 {
        'd'
    } else if d == 14 {
        'e'
    } else {
        'f'
    }
}

/// How one character appears inside a JSON string: quote and backslash
/// escaped, control characters as a four-digit escape, everything else as
/// itself.
pub open spec fn escape_char(c: char) -> Seq<char> {
    if c == '"' {
        seq!['\\', '"']
    } else if c == '\\' {
        seq!['\\', '\\']
    } else if (c as u32) < 32 {
        seq!['\\', 'u', '0', '0', hex_digit((c as u32 / 16) as nat), hex_digit(
            (c as u32 % 16) as nat,
        )]
    } else {
        seq![c]
    }
}

/// The JSON-string image of a text: each character escaped as needed.
pub open spec fn json_escaped(s: Seq<char>) -> Seq<char>
    decreases s.len(),
{
    if s.len() == 0 {
        Seq::<char>::empty()
    } else {
        escape_char(s[0]) + json_escaped(s.drop_first())
    }
}

proof fn lemma_json_escaped_push(s: Seq<char>, c: char)
    ensures
        json_escaped(s.push(c)) == json_escaped(s) + escape_char(c),
    decreases s.len(),
{
    if s.len() == 0 {
        assert(s.push(c)[0] == c);
        assert(s.push(c).drop_first() =~= Seq::<char>::empty());
        assert(json_escaped(s.push(c)) == escape_char(c) + json_escaped(Seq::<char>::empty()));
        assert(json_escaped(s.push(c)) =~= escape_char(c));
        assert(json_escaped(s) + escape_char(c) =~= escape_char(c));
    } else {
        assert(s.push(c)[0] == s[0]);
        assert(s.push(c).drop_first() =~= s.drop_first().push(c));
        lemma_json_escaped_push(s.drop_first(), c);
        assert(json_escaped(s.push(c)) == escape_char(s[0]) + json_escaped(
            s.drop_first().push(c),
        ));
        assert(escape_char(s[0]) + (json_escaped(s.drop_first()) + escape_char(c)) =~= (
        escape_char(s[0]) + json_escaped(s.drop_first())) + escape_char(c));
        assert(json_escaped(s.push(c)) =~= json_escaped(s) + escape_char(c));
    }
}

fn hex_digit_char(d: u32) -> (c: char)
    requires
        d < 16,
    ensures
        c == hex_digit(d as nat),
{
    if d == 0 {
        '0'
    } else if d == 1 {
        '1'
    } else if d == 2 {
        '2'
    } else if d == 3 {
        '3'
    } else if d == 4 {
        '4'
    } else if d == 5 {
        '5'
    } else if d == 6 {
        '6'
    } else if d == 7 {
        '7'
    } else if d == 8 {
        '8'
    } else if d == 9 {
        '9'
    } else if d == 10 {
        'a'
    } else if d == 11 {
        'b'
    } else if d == 12 {
        'c'
    } else if d == 13 {
        'd'
    } else if d == 14 {
        'e'
    } else {
        'f'
    }
}

fn append_escaped(out: &mut String, s: &str)
    ensures
        final(out)@ == old(out)@ + json_escaped(s@),
{
    let n = s.unicode_len();
    let mut i: usize = 0;
    proof {
        assert(s@.subrange(0, 0) =~= Seq::<char>::empty());
        assert(out@ =~= old(out)@ + json_escaped(s@.subrange(0, 0)));
    }
    while i < n
        invariant
            0 <= i <= n,
            n == s@.len(),
            out@ == old(out)@ + json_escaped(s@.subrange(0, i as int)),
        decreases n - i,
    {
        let c = s.get_char(i);
        if c == '"' {
            push_char(out, '\\');
            push_char(out, '"');
        } else if c == '\\' {
            push_char(out, '\\');
            push_char(out, '\\');
        } else if (c as u32) < 32 {
            push_char(out, '\\');
            push_char(out, 'u');
            push_char(out, '0');
            push_char(out, '0');
            push_char(out, hex_digit_char((c as u32) / 16));
            push_char(out, hex_digit_char((c as u32) % 16));
        } else {
            push_char(out, c);
        }
        proof {
            lemma_json_escaped_push(s@.subrange(0, i as int), c);
            assert(s@.subrange(0, i as int).push(c) =~= s@.subrange(0, i + 1));
            assert(out@ =~= old(out)@ + json_escaped(s@.subrange(0, i + 1)));
        }
        i = i + 1;
    }
    proof {
        assert(s@.subrange(0, n as int) =~= s@);
    }
}

/// The record's file content: one JSON object with the process id and the
/// output path.
pub open spec fn state_json(pid: u32, output_path: Seq<char>) -> Seq<char> {
    "{\"pid\":"@ + dec_str(pid as nat) + ",\"output_path\":\""@ + json_escaped(output_path)
        + "\"}"@
}

/// The text written to the record file for one detached recording.
pub fn encode_state(pid: u32, output_path: &str) -> (r: String)
    ensures
        r@ == state_json(pid, output_path@),
{
    let mut s = "{\"pid\":".to_owned();
    s.append(u64_to_string(pid as u64).as_str());
    s.append(",\"output_path\":\"");
    append_escaped(&mut s, output_path);
    s.append("\"}");
    proof {
        assert(s@ =~= state_json(pid, output_path@));
    }
    s
}

/// Assembles a record from the two fields a record file must hold.  Both
/// must be present, and the process id must be one the kernel could have
/// issued; anything else is a corrupt record.
pub fn state_from_fields(pid: Option<u64>, output_path: Option<String>) -> (r: Result<
    DetachedRecordingState,
    CaptureError,
>)
    ensures
        pid matches Some(p) ==> (1 <= p <= 0x7fffffff ==> (output_path matches Some(o) ==> (
        r matches Ok(st) && st.pid == p && st.output_path == o))),
        pid is None || (pid matches Some(p) && !(1 <= p <= 0x7fffffff)) || output_path is None
            ==> (r matches Err(e) && e is StateCorrupt),
        r matches Ok(st) ==> st.wf(),
{
    let p = match pid {
        Some(p) => p,
        None => {
            return Err(CaptureError::StateCorrupt);
        },
    };
    if p < 1 || p > 0x7fffffff {
        return Err(CaptureError::StateCorrupt);
    }
    let o = match output_path {
        Some(o) => o,
        None => {
            return Err(CaptureError::StateCorrupt);
        },
    };
    Ok(DetachedRecordingState { pid: p as u32, output_path: o })
}

/// Decodes one record file's text: a JSON object whose `pid` is an unsigned
/// integer in the kernel's process-id range and whose `output_path` is a
/// string; anything else — unparsable text included — is a corrupt record.
pub fn decode_state(content: &str) -> (r: Result<DetachedRecordingState, CaptureError>)
    ensures
        state_pid_of(content@) matches Some(p) ==> (1 <= p <= 0x7fffffff ==> (state_path_of(
            content@,
        ) matches Some(o) ==> (r matches Ok(st) && st.pid == p && st.output_path@ == o))),
        state_pid_of(content@) is None ==> (r matches Err(e) && e is StateCorrupt),
        state_pid_of(content@) matches Some(p) ==> (!(1 <= p <= 0x7fffffff) ==> (r matches Err(e)
            && e is StateCorrupt)),
        state_path_of(content@) is None ==> (r matches Err(e) && e is StateCorrupt),
        r matches Ok(st) ==> st.wf(),
        r matches Err(e) ==> e is StateCorrupt,
{
    let (pid, output_path) = parse_state_fields(content);
    state_from_fields(pid, output_path)
}

/// What a monitoring caller learns from the record file's content: the
/// in-flight detached recording, that none exists, or that the record is
/// malformed.
pub fn current_cli_recording_state(content: &Option<String>) -> (r: Result<
    DetachedRecordingState,
    CaptureError,
>)
    ensures
        content is None ==> (r matches Err(e) && e is StateMissing),
        content matches Some(s) ==> (state_pid_of(s@) matches Some(p) ==> (1 <= p <= 0x7fffffff
            ==> (state_path_of(s@) matches Some(o) ==> (r matches Ok(st) && st.pid == p
            && st.output_path@ == o)))),
        content matches Some(s) ==> (state_pid_of(s@) is None ==> (r matches Err(e)
            && e is StateCorrupt)),
        content matches Some(s) ==> (state_pid_of(s@) matches Some(p) ==> (!(1 <= p
            <= 0x7fffffff) ==> (r matches Err(e) && e is StateCorrupt))),
        content matches Some(s) ==> (state_path_of(s@) is None ==> (r matches Err(e)
            && e is StateCorrupt)),
        r matches Ok(st) ==> st.wf(),
{
    match content {
        None => Err(CaptureError::StateMissing),
        Some(s) => decode_state(s.as_str()),
    }
}

/// Witness that the start guard ran and found no detached recording.  Only
/// `start_recording_detached` creates one, so registering a new record —
/// and with it spawning a recorder — cannot happen without that check.
pub struct StartPermit {
    permitted: bool,
}

/// The guard on starting a detached recording: while a decodable record
/// exists, a recording is already in progress and nothing may be spawned;
/// a missing — or undecodable — record permits the start.  The check and the
/// later registration are not atomic across processes; a single-desktop user
/// is assumed.
pub fn start_recording_detached(prior: &Result<DetachedRecordingState, CaptureError>) -> (r:
    Result<StartPermit, CaptureError>)
    ensures
        prior is Ok ==> (r matches Err(e) && e is AlreadyRecording),
        prior is Err ==> r is Ok,
{
    match prior {
        Ok(_) => Err(CaptureError::AlreadyRecording),
        Err(_) => Ok(StartPermit { permitted: true }),
    }
}

/// Registers a freshly spawned detached recorder: the record to remember and
/// the exact text to persist at the record file.  Consumes the permit that
/// the start guard issued.
pub fn register_detached_recording(permit: StartPermit, pid: u32, output_path: String) -> (r: (
    DetachedRecordingState,
    String,
))
    requires
        valid_pid(pid),
    ensures
        r.0.wf(),
        r.0.pid == pid,
        r.0.output_path == output_path,
        r.1@ == state_json(pid, output_path@),
{
    let _ = permit;
    let text = encode_state(pid, output_path.as_str());
    (DetachedRecordingState { pid, output_path }, text)
}

/// What a detached stop decided: the operation's result, and whether the
/// record file must now be cleared.
pub struct DetachedStopOutcome {
    pub result: Result<String, CaptureError>,
    pub clear_state: bool,
}

/// Stops the detached recording that `prior` decoded: sends the continue
/// signal and then the interrupt to the stored process id — a process
/// already gone is fine both times — and returns the stored output path.
/// Whenever a record was decodable the record file is to be cleared, even
/// when signalling failed, so the system never stays stuck believing a
/// recording is active; a missing or corrupt record is reported unchanged
/// and clears nothing.
pub fn stop_recording_detached(prior: &Result<DetachedRecordingState, CaptureError>) -> (r:
    DetachedStopOutcome)
    requires
        prior matches Ok(st) ==> st.wf(),
        prior matches Err(e) ==> (e is StateMissing || e is StateCorrupt),
    ensures
        prior matches Err(e) ==> (r.result matches Err(e2) && e2 == e && !r.clear_state),
        prior matches Ok(st) ==> (r.clear_state && ((r.result matches Ok(p) && p
            == st.output_path) || (r.result matches Err(e) && e is SignalDeliveryFailed))),
{
    match prior {
        Err(CaptureError::StateMissing) => DetachedStopOutcome {
            result: Err(CaptureError::StateMissing),
            clear_state: false,
        },
        Err(_) => DetachedStopOutcome {
            result: Err(CaptureError::StateCorrupt),
            clear_state: false,
        },
        Ok(st) => {
            let cont = signal_result(send_signal(st.pid, SignalKind::Continue));
            let result = match cont {
                Err(e) => Err(e),
                Ok(_) => match signal_result(send_signal(st.pid, SignalKind::Interrupt)) {
                    Err(e) => Err(e),
                    Ok(_) => Ok(st.output_path.clone()),
                },
            };
            DetachedStopOutcome { result, clear_state: true }
        },
    }
}

} // verus!
