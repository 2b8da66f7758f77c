//! Output-path construction: base directory resolution and timestamped,
//! slug-carrying file names.

use vstd::prelude::*;

use crate::errors::CaptureError;
use crate::text::{contains_seq, dec_digit, dec_str, occurs_at, zero_pad};
use crate::time::{format_timestamp, local_now, timestamp_chars, Timestamp};

verus! {

/// Relies on `dirs::picture_dir`: the platform's pictures directory, if one
/// is defined.  The path is handed on as text.
#[verifier::external_body]
fn picture_dir_string() -> (r: Option<String>) {
    match dirs::picture_dir() {
        Some(p) => Some(p.to_string_lossy().into_owned()),
        None => None,
    }
}

/// Relies on `dirs::home_dir`: the user's home directory, if one is defined.
/// The path is handed on as text.
#[verifier::external_body]
fn home_dir_string() -> (r: Option<String>) {
    match dirs::home_dir() {
        Some(p) => Some(p.to_string_lossy().into_owned()),
        None => None,
    }
}

/// Relies on `dirs::state_dir`: the platform's per-user state directory, if
/// one is defined.  The path is handed on as text.
#[verifier::external_body]
fn state_dir_string() -> (r: Option<String>) {
    match dirs::state_dir() {
        Some(p) => Some(p.to_string_lossy().into_owned()),
        None => None,
    }
}

/// The application's directory under a base path.
pub open spec fn app_dir_chars(base: Seq<char>) -> Seq<char> {
    base + "/NCaptura"@
}

/// The application's directory under `Pictures` in the home directory.
pub open spec fn home_app_dir_chars(home: Seq<char>) -> Seq<char> {
    home + "/Pictures/NCaptura"@
}

/// Picks the capture base directory from the two candidate user directories:
/// the pictures directory wins, the home directory is the fallback, and with
/// neither there is no usable base at all.
pub fn base_output_dir(pictures: Option<String>, home: Option<String>) -> (r: Result<
    String,
    CaptureError,
>)
    ensures
        pictures matches Some(p) ==> (r matches Ok(d) && d@ == app_dir_chars(p@)),
        pictures is None ==> (home matches Some(h) ==> (r matches Ok(d) && d@
            == home_app_dir_chars(h@))),
        pictures is None && home is None ==> (r matches Err(e) && e is NoUserDirectory),
{
    match pictures {
        Some(p) => Ok(p.concat("/NCaptura")),
        None => match home {
            Some(h) => Ok(h.concat("/Pictures/NCaptura")),
            None => Err(CaptureError::NoUserDirectory),
        },
    }
}

/// `<prefix>-<timestamp>.<extension>`: the file name of one capture artifact.
pub open spec fn file_name_chars(prefix: Seq<char>, t: Timestamp, extension: Seq<char>) -> Seq<
    char,
> {
    prefix + seq!['-'] + timestamp_chars(t) + seq!['.'] + extension
}

/// The file name for one capture artifact made at instant `t`.
pub fn output_file_name(prefix: &str, t: &Timestamp, extension: &str) -> (r: String)
    ensures
        r@ == file_name_chars(prefix@, *t, extension@),
{
    let mut s = prefix.to_owned();
    s.append("-");
    proof {
        reveal_strlit("-");
        assert(s@ =~= prefix@ + seq!['-']);
    }
    s.append(format_timestamp(t).as_str());
    s.append(".");
    proof {
        reveal_strlit(".");
    }
    s.append(extension);
    proof {
        assert(s@ =~= file_name_chars(prefix@, *t, extension@));
    }
    s
}

/// Where one capture artifact is to be written: the directory that must
/// exist, and the full file path inside it.  The resolved base directory and
/// the clock reading the name was built from ride along.
pub struct OutputPathPlan {
    pub base: String,
    pub timestamp: Timestamp,
    pub dir: String,
    pub file_path: String,
}

impl OutputPathPlan {
    /// The plan's parts agree with each other and with the request that made
    /// it.
    pub open spec fn wf(self, kind_dir: Seq<char>, prefix: Seq<char>, extension: Seq<char>) -> bool {
        &&& self.timestamp.wf()
        &&& self.dir@ == self.base@ + seq!['/'] + kind_dir
        &&& self.file_path@ == self.dir@ + seq!['/'] + file_name_chars(
            prefix,
            self.timestamp,
            extension,
        )
    }
}

/// Resolves the base directory, reads the clock and lays out where the next
/// artifact of the given kind goes.  The caller still has to create
/// `plan.dir` before using `plan.file_path`.  Fails only when no user
/// directory exists.  Two plans built within the same wall-clock second for
/// the same request name the same file; nothing de-duplicates them.
pub fn build_output_path(kind_dir: &str, prefix: &str, extension: &str) -> (r: Result<
    OutputPathPlan,
    CaptureError,
>)
    ensures
        r matches Ok(plan) ==> plan.wf(kind_dir@, prefix@, extension@),
        r matches Err(e) ==> e is NoUserDirectory,
{
    let pictures = picture_dir_string();
    let home = home_dir_string();
    let base = match base_output_dir(pictures, home) {
        Ok(b) => b,
        Err(e) => {
            return Err(e);
        },
    };
    let timestamp = local_now();
    let mut dir = base.clone();
    dir.append("/");
    proof {
        reveal_strlit("/");
    }
    dir.append(kind_dir);
    let name = output_file_name(prefix, &timestamp, extension);
    let mut file_path = dir.clone();
    file_path.append("/");
    file_path.append(name.as_str());
    proof {
        assert(dir@ =~= base@ + seq!['/'] + kind_dir@);
        assert(file_path@ =~= dir@ + seq!['/'] + file_name_chars(
            prefix@,
            timestamp,
            extension@,
        ));
    }
    Ok(OutputPathPlan { base, timestamp, dir, file_path })
}

/// The application's directory under a state base path.
pub open spec fn state_app_dir_chars(state: Seq<char>) -> Seq<char> {
    state + "/ncaptura"@
}

/// The application's directory under `.local/state` in the home directory.
pub open spec fn home_state_dir_chars(home: Seq<char>) -> Seq<char> {
    home + "/.local/state/ncaptura"@
}

/// Picks the record store's directory from the two candidate user
/// directories: the platform state directory wins, `.local/state` under the
/// home directory is the fallback, and with neither there is no usable
/// store at all.
pub fn state_base_dir(state: Option<String>, home: Option<String>) -> (r: Result<
    String,
    CaptureError,
>)
    ensures
        state matches Some(s) ==> (r matches Ok(d) && d@ == state_app_dir_chars(s@)),
        state is None ==> (home matches Some(h) ==> (r matches Ok(d) && d@
            == home_state_dir_chars(h@))),
        state is None && home is None ==> (r matches Err(e) && e is NoUserDirectory),
{
    match state {
        Some(s) => Ok(s.concat("/ncaptura")),
        None => match home {
            Some(h) => Ok(h.concat("/.local/state/ncaptura")),
            None => Err(CaptureError::NoUserDirectory),
        },
    }
}

/// The per-user state directory for the detached-recording record: reads
/// the two candidate directories and applies `state_base_dir`'s rule.
/// Fails only when no user directory exists.
pub fn state_store_dir() -> (r: Result<String, CaptureError>)
    ensures
        r matches Err(e) ==> e is NoUserDirectory,
{
    let state = state_dir_string();
    let home = home_dir_string();
    state_base_dir(state, home)
}

/// A decimal digit character.
pub open spec fn is_ascii_digit(c: char) -> bool {
    c == '0' || c == '1' || c == '2' || c == '3' || c == '4' || c == '5' || c == '6' || c == '7'
        || c == '8' || c == '9'
}

proof fn lemma_dec_digit_is_digit(d: nat)
    ensures
        is_ascii_digit(dec_digit(d)),
{
}

proof fn lemma_dec_str_digits(n: nat)
    ensures
        forall|i: int| 0 <= i < dec_str(n).len() ==> is_ascii_digit(#[trigger] dec_str(n)[i]),
    decreases n,
{
    if n < 10 {
        lemma_dec_digit_is_digit(n);
        assert(dec_str(n)[0] == dec_digit(n));
    } else {
        lemma_dec_str_digits(n / 10);
        lemma_dec_digit_is_digit(n % 10);
        let prev = dec_str(n / 10);
        assert(dec_str(n) == prev.push(dec_digit(n % 10)));
        assert forall|i: int| 0 <= i < dec_str(n).len() implies is_ascii_digit(
            #[trigger] dec_str(n)[i],
        ) by {
            if i < prev.len() {
                assert(dec_str(n)[i] == prev[i]);
            } else {
                assert(dec_str(n)[i] == dec_digit(n % 10));
            }
        }
    }
}

proof fn lemma_dec_str_len2(n: nat)
    requires
        n < 100,
    ensures
        1 <= dec_str(n).len() <= 2,
{
    if n >= 10 {
        assert(n / 10 < 10);
        assert(dec_str(n / 10).len() == 1);
        assert(dec_str(n) == dec_str(n / 10).push(dec_digit(n % 10)));
    }
}

/// A well-formed timestamp of a common-era year renders as exactly fifteen
/// characters: eight date digits, a separating dash, six time digits.
pub proof fn lemma_timestamp_shape(t: Timestamp)
    requires
        t.wf(),
        0 <= t.year <= 9999,
    ensures
        timestamp_chars(t).len() == 15,
        timestamp_chars(t)[8] == '-',
        forall|i: int|
            0 <= i < 15 && i != 8 ==> is_ascii_digit(#[trigger] timestamp_chars(t)[i]),
{
    let y = zero_pad(dec_str(t.year as nat), 4);
    let mo = zero_pad(dec_str(t.month as nat), 2);
    let d = zero_pad(dec_str(t.day as nat), 2);
    let h = zero_pad(dec_str(t.hour as nat), 2);
    let mi = zero_pad(dec_str(t.minute as nat), 2);
    let s = zero_pad(dec_str(t.second as nat), 2);
    assert(1 <= dec_str(t.year as nat).len() <= 4) by {
        let n = t.year as nat;
        if n < 10 {
        } else if n < 100 {
            lemma_dec_str_len2(n);
        } else {
            lemma_dec_str_len2(n / 10 / 10);
            assert(dec_str(n / 10) == dec_str(n / 10 / 10).push(dec_digit((n / 10) % 10)));
            assert(dec_str(n) == dec_str(n / 10).push(dec_digit(n % 10)));
        }
    }
    lemma_dec_str_digits(t.year as nat);
    lemma_dec_str_digits(t.month as nat);
    lemma_dec_str_digits(t.day as nat);
    lemma_dec_str_digits(t.hour as nat);
    lemma_dec_str_digits(t.minute as nat);
    lemma_dec_str_digits(t.second as nat);
    lemma_dec_str_len2(t.month as nat);
    lemma_dec_str_len2(t.day as nat);
    lemma_dec_str_len2(t.hour as nat);
    lemma_dec_str_len2(t.minute as nat);
    lemma_dec_str_len2(t.second as nat);
    assert(y.len() == 4 && mo.len() == 2 && d.len() == 2 && h.len() == 2 && mi.len() == 2
        && s.len() == 2);
    assert(is_ascii_digit('0'));
    assert(forall|i: int| 0 <= i < 4 ==> is_ascii_digit(#[trigger] y[i]));
    assert(forall|i: int| 0 <= i < 2 ==> is_ascii_digit(#[trigger] mo[i]));
    assert(forall|i: int| 0 <= i < 2 ==> is_ascii_digit(#[trigger] d[i]));
    assert(forall|i: int| 0 <= i < 2 ==> is_ascii_digit(#[trigger] h[i]));
    assert(forall|i: int| 0 <= i < 2 ==> is_ascii_digit(#[trigger] mi[i]));
    assert(forall|i: int| 0 <= i < 2 ==> is_ascii_digit(#[trigger] s[i]));
}

/// An output plan's full path carries the slug its prefix ends with: the
/// file can always be told apart by name.
pub proof fn lemma_plan_path_contains_slug(
    plan: OutputPathPlan,
    kind_dir: Seq<char>,
    head: Seq<char>,
    slug: Seq<char>,
    extension: Seq<char>,
)
    requires
        plan.wf(kind_dir, head + slug, extension),
    ensures
        contains_seq(plan.file_path@, slug),
{
    let name = file_name_chars(head + slug, plan.timestamp, extension);
    let at = (plan.dir@.len() + 1 + head.len()) as int;
    assert(plan.file_path@.subrange(at, at + slug.len()) =~= slug);
    assert(occurs_at(plan.file_path@, slug, at));
}

/// An output plan's full path carries the plan's complete timestamp text,
/// right after the prefix and its separating dash.
pub proof fn lemma_plan_path_contains_timestamp(
    plan: OutputPathPlan,
    kind_dir: Seq<char>,
    prefix: Seq<char>,
    extension: Seq<char>,
)
    requires
        plan.wf(kind_dir, prefix, extension),
    ensures
        occurs_at(
            plan.file_path@,
            timestamp_chars(plan.timestamp),
            (plan.dir@.len() + 1 + prefix.len() + 1) as int,
        ),
{
    let ts = timestamp_chars(plan.timestamp);
    let at = (plan.dir@.len() + 1 + prefix.len() + 1) as int;
    assert(plan.file_path@.subrange(at, at + ts.len()) =~= ts);
}

/// Two artifact names built from the same request and the same wall-clock
/// second are the same name: collisions within one second are a documented
/// limitation, not prevented here.
pub proof fn lemma_same_second_collides(
    prefix: Seq<char>,
    t1: Timestamp,
    t2: Timestamp,
    extension: Seq<char>,
)
    requires
        t1 == t2,
    ensures
        file_name_chars(prefix, t1, extension) == file_name_chars(prefix, t2, extension),
{
}

/// Two plans laid out for the same request, over the same resolved base and
/// within the same wall-clock second, name byte-identical paths: the
/// same-second collision is a documented limitation, not prevented here.
/// (That two immediate calls see the same base is a fact of the environment,
/// which no contract here states.)
pub proof fn lemma_same_second_plans_collide(
    p1: OutputPathPlan,
    p2: OutputPathPlan,
    kind_dir: Seq<char>,
    prefix: Seq<char>,
    extension: Seq<char>,
)
    requires
        p1.wf(kind_dir, prefix, extension),
        p2.wf(kind_dir, prefix, extension),
        p1.base@ == p2.base@,
        p1.timestamp == p2.timestamp,
    ensures
        p1.dir@ == p2.dir@,
        p1.file_path@ == p2.file_path@,
{
}

} // verus!
