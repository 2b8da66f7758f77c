//! The compositor's window directory: parsing the window-list reply, filling
//! in the documented defaults, ordering the result, and reading the focused
//! output's name.

use vstd::prelude::*;
use vstd::multiset::Multiset;
use vstd::seq_lib::lemma_multiset_commutative;
use vstd::seq_lib::to_multiset_insert;

use crate::commands::{exec_failure_detail, RunOutcome};
use crate::errors::CaptureError;
use crate::text::{lemma_lex_le_total, lemma_lex_le_trans, lex_le, str_lex_le, trim, trim_spec};

verus! {

/// One open window as the compositor reports it, defaults filled in.
#[derive(Clone, Debug)]
pub struct WindowInfo {
    pub id: u64,
    pub title: String,
    pub app_id: String,
    pub workspace_id: u64,
    pub is_focused: bool,
}

/// The mathematical image of a `WindowInfo`.
pub struct WindowInfoView {
    pub id: u64,
    pub title: Seq<char>,
    pub app_id: Seq<char>,
    pub workspace_id: u64,
    pub is_focused: bool,
}

impl View for WindowInfo {
    type V = WindowInfoView;

    open spec fn view(&self) -> WindowInfoView {
        WindowInfoView {
            id: self.id,
            title: self.title@,
            app_id: self.app_id@,
            workspace_id: self.workspace_id,
            is_focused: self.is_focused,
        }
    }
}

/// The views of a window sequence.
pub open spec fn views_of(s: Seq<WindowInfo>) -> Seq<WindowInfoView> {
    s.map_values(|w: WindowInfo| w@)
}

/// Builds one window entry from its raw fields, with the documented
/// defaults: `"(untitled)"` for a missing title, `"unknown"` for a missing
/// application id, workspace `0` and not focused when those are absent.
pub fn window_from_fields(
    id: u64,
    title: Option<String>,
    app_id: Option<String>,
    workspace_id: Option<u64>,
    is_focused: Option<bool>,
) -> (w: WindowInfo)
    ensures
        w@.id == id,
        title matches Some(t) ==> w@.title == t@,
        title is None ==> w@.title == "(untitled)"@,
        app_id matches Some(a) ==> w@.app_id == a@,
        app_id is None ==> w@.app_id == "unknown"@,
        workspace_id matches Some(n) ==> w@.workspace_id == n,
        workspace_id is None ==> w@.workspace_id == 0,
        is_focused matches Some(f) ==> w@.is_focused == f,
        is_focused is None ==> !w@.is_focused,
{
    WindowInfo {
        id,
        title: match title {
            Some(t) => t,
            None => "(untitled)".to_owned(),
        },
        app_id: match app_id {
            Some(a) => a,
            None => "unknown".to_owned(),
        },
        workspace_id: match workspace_id {
            Some(n) => n,
            None => 0,
        },
        is_focused: match is_focused {
            Some(f) => f,
            None => false,
        },
    }
}

/// The directory order: the focused window sorts first, then windows in
/// ascending workspace id, then ascending title.
pub open spec fn window_le(a: WindowInfoView, b: WindowInfoView) -> bool {
    if a.is_focused != b.is_focused {
        a.is_focused
    } else if a.workspace_id != b.workspace_id {
        a.workspace_id < b.workspace_id
    } else {
        lex_le(a.title, b.title)
    }
}

/// Any two windows are ordered one way or the other.
pub proof fn lemma_window_le_total(a: WindowInfoView, b: WindowInfoView)
    ensures
        window_le(a, b) || window_le(b, a),
{
    lemma_lex_le_total(a.title, b.title);
}

/// The directory order is transitive.
pub proof fn lemma_window_le_trans(a: WindowInfoView, b: WindowInfoView, c: WindowInfoView)
    requires
        window_le(a, b),
        window_le(b, c),
    ensures
        window_le(a, c),
{
    if a.is_focused == b.is_focused && b.is_focused == c.is_focused && a.workspace_id
        == b.workspace_id && b.workspace_id == c.workspace_id {
        lemma_lex_le_trans(a.title, b.title, c.title);
    }
}

fn window_le_exec(a: &WindowInfo, b: &WindowInfo) -> (r: bool)
    ensures
        r == window_le(a@, b@),
{
    if a.is_focused != b.is_focused {
        a.is_focused
    } else if a.workspace_id != b.workspace_id {
        a.workspace_id < b.workspace_id
    } else {
        str_lex_le(a.title.as_str(), b.title.as_str())
    }
}

/// The sequence is in directory order.
pub open spec fn windows_sorted(s: Seq<WindowInfoView>) -> bool {
    forall|i: int, j: int| 0 <= i < j < s.len() ==> window_le(s[i], s[j])
}

proof fn lemma_views_insert(s: Seq<WindowInfo>, i: int, w: WindowInfo)
    requires
        0 <= i <= s.len(),
    ensures
        views_of(s.insert(i, w)) =~= views_of(s).insert(i, w@),
{
}

/// Reorders the windows into directory order; nothing is added or lost.
pub fn sort_windows(windows: Vec<WindowInfo>) -> (r: Vec<WindowInfo>)
    ensures
        windows_sorted(views_of(r@)),
        views_of(r@).to_multiset() == views_of(windows@).to_multiset(),
{
    broadcast use vstd::multiset::group_multiset_axioms;
    broadcast use vstd::seq_lib::group_to_multiset_ensures;

    let mut rest = windows;
    let mut out: Vec<WindowInfo> = Vec::new();
    proof {
        assert(views_of(out@) =~= Seq::<WindowInfoView>::empty());
        assert(views_of(out@).to_multiset() =~= Multiset::<WindowInfoView>::empty());
        assert(views_of(rest@).to_multiset().add(views_of(out@).to_multiset()) =~= views_of(
            rest@,
        ).to_multiset());
    }
    while rest.len() != 0
        invariant
            windows_sorted(views_of(out@)),
            views_of(rest@).to_multiset().add(views_of(out@).to_multiset()) == views_of(
                windows@,
            ).to_multiset(),
        decreases rest@.len(),
    {
        let ghost rest_before = rest@;
        let next = match rest.pop() {
            Some(w) => w,
            None => vstd::pervasive::unreached(),
        };
        let ghost rest_after = rest@;
        proof {
            assert(rest_before =~= rest_after.push(next));
            assert(rest_after.push(next) =~= rest_after.insert(rest_after.len() as int, next));
            lemma_views_insert(rest_after, rest_after.len() as int, next);
            to_multiset_insert(views_of(rest_after), views_of(rest_after).len() as int, next@);
            assert(views_of(rest_before) =~= views_of(rest_after).insert(
                views_of(rest_after).len() as int,
                next@,
            ));
            assert(views_of(rest_before).to_multiset() == views_of(rest_after).to_multiset()
                .insert(next@));
        }
        let mut idx: usize = 0;
        while idx < out.len() && window_le_exec(&out[idx], &next)
            invariant
                0 <= idx <= out.len(),
                forall|k: int| 0 <= k < idx ==> window_le(views_of(out@)[k], next@),
            decreases out.len() - idx,
        {
            idx = idx + 1;
        }
        proof {
            if idx < out.len() {
                assert(!window_le(views_of(out@)[idx as int], next@));
                lemma_window_le_total(views_of(out@)[idx as int], next@);
                assert forall|k: int| idx <= k < out@.len() implies window_le(
                    next@,
                    views_of(out@)[k],
                ) by {
                    if k > idx {
                        assert(window_le(views_of(out@)[idx as int], views_of(out@)[k]));
                        lemma_window_le_trans(
                            next@,
                            views_of(out@)[idx as int],
                            views_of(out@)[k],
                        );
                    }
                }
            }
        }
        let ghost out_before = out@;
        out.insert(idx, next);
        proof {
            lemma_views_insert(out_before, idx as int, next);
            to_multiset_insert(views_of(out_before), idx as int, next@);
            assert(views_of(rest@).to_multiset().add(views_of(out@).to_multiset()) =~= views_of(
                windows@,
            ).to_multiset());
            let nv = views_of(out@);
            assert forall|i: int, j: int| 0 <= i < j < nv.len() implies window_le(
                nv[i],
                nv[j],
            ) by {
                let ov = views_of(out_before);
                if j < idx {
                    assert(nv[i] == ov[i] && nv[j] == ov[j]);
                } else if i < idx && j == idx {
                    assert(nv[i] == ov[i] && nv[j] == next@);
                } else if i < idx && j > idx {
                    assert(nv[i] == ov[i] && nv[j] == ov[j - 1]);
                } else if i == idx {
                    assert(nv[i] == next@ && nv[j] == ov[j - 1]);
                } else {
                    assert(nv[i] == ov[i - 1] && nv[j] == ov[j - 1]);
                }
            }
        }
    }
    proof {
        assert(views_of(rest@) =~= Seq::<WindowInfoView>::empty());
        assert(views_of(rest@).to_multiset() =~= Multiset::<WindowInfoView>::empty());
        assert(views_of(out@).to_multiset() =~= views_of(rest@).to_multiset().add(views_of(
            out@,
        ).to_multiset()));
    }
    out
}

/// The five optional members of one window-list entry, exactly as the
/// reply carries them, before any default is filled in.
#[derive(Debug)]
pub struct WindowFields {
    pub id: Option<u64>,
    pub title: Option<String>,
    pub app_id: Option<String>,
    pub workspace_id: Option<u64>,
    pub is_focused: Option<bool>,
}

/// The mathematical image of a `WindowFields`.
pub struct WindowFieldsView {
    pub id: Option<u64>,
    pub title: Option<Seq<char>>,
    pub app_id: Option<Seq<char>>,
    pub workspace_id: Option<u64>,
    pub is_focused: Option<bool>,
}

impl View for WindowFields {
    type V = WindowFieldsView;

    open spec fn view(&self) -> WindowFieldsView {
        WindowFieldsView {
            id: self.id,
            title: self.title.deep_view(),
            app_id: self.app_id.deep_view(),
            workspace_id: self.workspace_id,
            is_focused: self.is_focused,
        }
    }
}

impl DeepView for WindowFields {
    type V = WindowFieldsView;

    open spec fn deep_view(&self) -> WindowFieldsView {
        self.view()
    }
}

/// The entries the window-list reply parses to: present exactly when the
/// text is a JSON array, one element per entry, in reply order.
pub uninterp spec fn window_entries_of(s: Seq<char>) -> Option<Seq<WindowFieldsView>>;

/// Relies on serde_json (`from_str::<Vec<Value>>`, `Value::get`,
/// `Value::as_u64`, `Value::as_str`, `Value::as_bool`): parses the
/// window-list reply into its entries' five members, absent entirely when
/// the text is not a JSON array.  The result is a function of the text
/// alone.
#[verifier::external_body]
fn parse_window_entries(s: &str) -> (r: Option<Vec<WindowFields>>)
    ensures
        r.deep_view() == window_entries_of(s@),
{
    let values: Vec<serde_json::Value> = match serde_json::from_str(s) {
        Ok(v) => v,
        Err(_) => return None,
    };
    Some(values.iter().map(|v| WindowFields {
        id: v.get("id").and_then(serde_json::Value::as_u64),
        title: v.get("title").and_then(serde_json::Value::as_str).map(str::to_owned),
        app_id: v.get("app_id").and_then(serde_json::Value::as_str).map(str::to_owned),
        workspace_id: v.get("workspace_id").and_then(serde_json::Value::as_u64),
        is_focused: v.get("is_focused").and_then(serde_json::Value::as_bool),
    }).collect())
}

/// The window an entry becomes once the documented defaults are filled in.
/// Meaningful for entries that carry an id; others never become windows.
pub open spec fn window_of_entry(e: WindowFieldsView) -> WindowInfoView {
    WindowInfoView {
        id: match e.id {
            Some(i) => i,
            None => 0,
        },
        title: match e.title {
            Some(t) => t,
            None => "(untitled)"@,
        },
        app_id: match e.app_id {
            Some(a) => a,
            None => "unknown"@,
        },
        workspace_id: match e.workspace_id {
            Some(w) => w,
            None => 0,
        },
        is_focused: match e.is_focused {
            Some(f) => f,
            None => false,
        },
    }
}

/// The windows a reply's entries yield: entries without an id are skipped
/// silently, every other entry becomes one window with the defaults filled
/// in, in entry order.
pub open spec fn windows_of_entries(es: Seq<WindowFieldsView>) -> Seq<WindowInfoView>
    decreases es.len(),
{
    if es.len() == 0 {
        Seq::<WindowInfoView>::empty()
    } else {
        let rest = windows_of_entries(es.drop_first());
        if es[0].id is Some {
            seq![window_of_entry(es[0])] + rest
        } else {
            rest
        }
    }
}

proof fn lemma_windows_of_entries_push(es: Seq<WindowFieldsView>, e: WindowFieldsView)
    ensures
        windows_of_entries(es.push(e)) == windows_of_entries(es) + (if e.id is Some {
            seq![window_of_entry(e)]
        } else {
            Seq::<WindowInfoView>::empty()
        }),
    decreases es.len(),
{
    let tail = if e.id is Some {
        seq![window_of_entry(e)]
    } else {
        Seq::<WindowInfoView>::empty()
    };
    if es.len() == 0 {
        assert(es.push(e)[0] == e);
        assert(es.push(e).drop_first() =~= Seq::<WindowFieldsView>::empty());
        assert(windows_of_entries(es.push(e).drop_first()) =~= Seq::<WindowInfoView>::empty());
        assert(windows_of_entries(es.push(e)) =~= tail);
        assert(windows_of_entries(es) + tail =~= tail);
    } else {
        assert(es.push(e)[0] == es[0]);
        assert(es.push(e).drop_first() =~= es.drop_first().push(e));
        lemma_windows_of_entries_push(es.drop_first(), e);
        assert(windows_of_entries(es.push(e).drop_first()) == windows_of_entries(
            es.drop_first().push(e),
        ));
        if es[0].id is Some {
            assert(seq![window_of_entry(es[0])] + (windows_of_entries(es.drop_first()) + tail)
                =~= (seq![window_of_entry(es[0])] + windows_of_entries(es.drop_first())) + tail);
        }
        assert(windows_of_entries(es.push(e)) =~= windows_of_entries(es) + tail);
    }
}

/// Interprets the compositor's window-list run: a launch or execution
/// failure keeps the command-runner taxonomy; output that is not text, or
/// not a JSON array, fails as a parse error; otherwise every entry with an
/// `id` becomes a `WindowInfo` with the documented defaults, entries without
/// one are skipped silently, and exactly those windows come back in
/// directory order — focused window first, then ascending workspace id,
/// then ascending title.
pub fn list_windows(outcome: &RunOutcome) -> (r: Result<Vec<WindowInfo>, CaptureError>)
    ensures
        !outcome.launched ==> (r matches Err(e) && e matches CaptureError::ToolInvocationFailed {
            context: c,
        } && c@ == "niri msg --json windows"@),
        outcome.launched && !outcome.exit_success ==> (r matches Err(e)
            && e matches CaptureError::ToolExecutionFailed { context: c, detail: d } && c@
            == "niri msg --json windows"@ && d@ == exec_failure_detail(
            outcome.stderr@,
            outcome.exit_code,
        )),
        outcome.launched && outcome.exit_success && !outcome.stdout_utf8 ==> (r matches Err(e)
            && e matches CaptureError::ParseFailed { context: c } && c@
            == "niri msg --json windows"@),
        outcome.launched && outcome.exit_success && outcome.stdout_utf8 ==> (window_entries_of(
            trim_spec(outcome.stdout@),
        ) matches Some(es) ==> (r matches Ok(ws) && windows_sorted(views_of(ws@)) && views_of(
            ws@,
        ).to_multiset() == windows_of_entries(es).to_multiset())),
        outcome.launched && outcome.exit_success && outcome.stdout_utf8 ==> (window_entries_of(
            trim_spec(outcome.stdout@),
        ) is None ==> (r matches Err(e) && e matches CaptureError::ParseFailed { context: c }
            && c@ == "niri msg --json windows"@)),
{
    broadcast use vstd::multiset::group_multiset_axioms;
    broadcast use vstd::seq_lib::group_to_multiset_ensures;

    if !outcome.launched {
        return Err(
            CaptureError::ToolInvocationFailed { context: "niri msg --json windows".to_owned() },
        );
    }
    if !outcome.exit_success {
        let failed = crate::commands::command_result(outcome, "niri msg --json windows");
        match failed {
            Ok(_) => {
                return Err(
                    CaptureError::ParseFailed { context: "niri msg --json windows".to_owned() },
                );
            },
            Err(e) => {
                return Err(e);
            },
        }
    }
    if !outcome.stdout_utf8 {
        return Err(CaptureError::ParseFailed { context: "niri msg --json windows".to_owned() });
    }
    let body = trim(outcome.stdout.as_str());
    let mut entries = match parse_window_entries(body.as_str()) {
        Some(v) => v,
        None => {
            return Err(
                CaptureError::ParseFailed { context: "niri msg --json windows".to_owned() },
            );
        },
    };
    let ghost all = entries.deep_view();
    let mut raw: Vec<WindowInfo> = Vec::new();
    proof {
        assert(views_of(raw@) =~= Seq::<WindowInfoView>::empty());
        assert(views_of(raw@).to_multiset() =~= Multiset::<WindowInfoView>::empty());
        assert(windows_of_entries(all).to_multiset() =~= windows_of_entries(
            entries.deep_view(),
        ).to_multiset().add(views_of(raw@).to_multiset()));
    }
    while entries.len() != 0
        invariant
            windows_of_entries(all).to_multiset() == windows_of_entries(
                entries.deep_view(),
            ).to_multiset().add(views_of(raw@).to_multiset()),
        decreases entries@.len(),
    {
        let ghost before = entries.deep_view();
        let entry = match entries.pop() {
            Some(x) => x,
            None => vstd::pervasive::unreached(),
        };
        let ghost after = entries.deep_view();
        proof {
            assert(before =~= after.push(entry.deep_view()));
            lemma_windows_of_entries_push(after, entry.deep_view());
        }
        let ghost raw_before = raw@;
        match entry.id {
            Some(id) => {
                let w = window_from_fields(
                    id,
                    entry.title,
                    entry.app_id,
                    entry.workspace_id,
                    entry.is_focused,
                );
                proof {
                    assert(w@ == window_of_entry(entry.deep_view()));
                }
                raw.push(w);
                proof {
                    broadcast use vstd::multiset::group_multiset_axioms;
                    broadcast use vstd::seq_lib::group_to_multiset_ensures;

                    let woe = window_of_entry(entry.deep_view());
                    assert(views_of(raw@) =~= views_of(raw_before).push(w@));
                    assert(views_of(raw@).to_multiset() == views_of(raw_before).push(
                        w@,
                    ).to_multiset());
                    assert(views_of(raw_before).push(w@).to_multiset() =~= views_of(
                        raw_before,
                    ).to_multiset().insert(w@));
                    lemma_multiset_commutative(windows_of_entries(after), seq![woe]);
                    assert(Seq::<WindowInfoView>::empty().to_multiset() =~= Multiset::<
                        WindowInfoView,
                    >::empty());
                    assert(seq![woe] =~= Seq::<WindowInfoView>::empty().push(woe));
                    assert(seq![woe].to_multiset() == Seq::<WindowInfoView>::empty().push(
                        woe,
                    ).to_multiset());
                    assert(Seq::<WindowInfoView>::empty().push(woe).to_multiset() =~= Multiset::<
                        WindowInfoView,
                    >::empty().insert(woe));
                    assert(windows_of_entries(before).to_multiset() =~= windows_of_entries(
                        after,
                    ).to_multiset().insert(woe));
                    assert(windows_of_entries(all).to_multiset() =~= windows_of_entries(
                        after,
                    ).to_multiset().add(views_of(raw@).to_multiset()));
                }
            },
            None => {
                proof {
                    assert(windows_of_entries(before) =~= windows_of_entries(after));
                }
            },
        }
    }
    proof {
        assert(entries.deep_view() =~= Seq::<WindowFieldsView>::empty());
        assert(windows_of_entries(entries.deep_view()) =~= Seq::<WindowInfoView>::empty());
        assert(windows_of_entries(entries.deep_view()).to_multiset() =~= Multiset::<
            WindowInfoView,
        >::empty());
        assert(windows_of_entries(all).to_multiset() =~= views_of(raw@).to_multiset());
    }
    Ok(sort_windows(raw))
}

/// Whether the focused-output reply parses as JSON at all.
pub uninterp spec fn output_reply_parses(s: Seq<char>) -> bool;

/// The flat `name` member the focused-output reply carries, if any.
pub uninterp spec fn flat_output_name_of(s: Seq<char>) -> Option<Seq<char>>;

/// The `name` member under the reply's `/Ok/FocusedOutput` result envelope,
/// if any.
pub uninterp spec fn nested_output_name_of(s: Seq<char>) -> Option<Seq<char>>;

/// Relies on serde_json (`from_str`, `Value::get`, `Value::pointer`,
/// `Value::as_str`): whether the focused-output reply parses, and the two
/// candidate name members — the flat `name`, and the one at
/// `/Ok/FocusedOutput/name`.  The result is a function of the text alone.
#[verifier::external_body]
fn parse_output_name_fields(s: &str) -> (r: Option<(Option<String>, Option<String>)>)
    ensures
        r is Some <==> output_reply_parses(s@),
        r matches Some(t) ==> (t.0.deep_view() == flat_output_name_of(s@) && t.1.deep_view()
            == nested_output_name_of(s@)),
{
    let v: serde_json::Value = match serde_json::from_str(s) {
        Ok(v) => v,
        Err(_) => return None,
    };
    Some((
        v.get("name").and_then(serde_json::Value::as_str).map(str::to_owned),
        v.pointer("/Ok/FocusedOutput/name").and_then(serde_json::Value::as_str).map(str::to_owned),
    ))
}

/// Interprets the compositor's focused-output run.  The reply may be the
/// flat `{"name": ...}` shape or wrapped in a result envelope at
/// `/Ok/FocusedOutput/name`; the flat member wins when both are present, and
/// with neither the output name is missing.  Output that is not text, or not
/// JSON, fails as a parse error.
pub fn focused_output_name(outcome: &RunOutcome) -> (r: Result<String, CaptureError>)
    ensures
        !outcome.launched ==> (r matches Err(e) && e matches CaptureError::ToolInvocationFailed {
            context: c,
        } && c@ == "niri msg --json focused-output"@),
        outcome.launched && !outcome.exit_success ==> (r matches Err(e)
            && e matches CaptureError::ToolExecutionFailed { context: c, detail: d } && c@
            == "niri msg --json focused-output"@ && d@ == exec_failure_detail(
            outcome.stderr@,
            outcome.exit_code,
        )),
        outcome.launched && outcome.exit_success && !outcome.stdout_utf8 ==> (r matches Err(e)
            && e matches CaptureError::ParseFailed { context: c } && c@
            == "niri msg --json focused-output"@),
        outcome.launched && outcome.exit_success && outcome.stdout_utf8 && !output_reply_parses(
            trim_spec(outcome.stdout@),
        ) ==> (r matches Err(e) && e matches CaptureError::ParseFailed { context: c } && c@
            == "niri msg --json focused-output"@),
        outcome.launched && outcome.exit_success && outcome.stdout_utf8 && output_reply_parses(
            trim_spec(outcome.stdout@),
        ) ==> (flat_output_name_of(trim_spec(outcome.stdout@)) matches Some(n) ==> (
        r matches Ok(o) && o@ == n)),
        outcome.launched && outcome.exit_success && outcome.stdout_utf8 && output_reply_parses(
            trim_spec(outcome.stdout@),
        ) && flat_output_name_of(trim_spec(outcome.stdout@)) is None ==> (nested_output_name_of(
            trim_spec(outcome.stdout@),
        ) matches Some(n) ==> (r matches Ok(o) && o@ == n)),
        outcome.launched && outcome.exit_success && outcome.stdout_utf8 && output_reply_parses(
            trim_spec(outcome.stdout@),
        ) && flat_output_name_of(trim_spec(outcome.stdout@)) is None && nested_output_name_of(
            trim_spec(outcome.stdout@),
        ) is None ==> (r matches Err(e) && e is OutputNameNotFound),
{
    if !outcome.launched {
        return Err(
            CaptureError::ToolInvocationFailed {
                context: "niri msg --json focused-output".to_owned(),
            },
        );
    }
    if !outcome.exit_success {
        let failed = crate::commands::command_result(outcome, "niri msg --json focused-output");
        match failed {
            Ok(_) => {
                return Err(
                    CaptureError::ParseFailed {
                        context: "niri msg --json focused-output".to_owned(),
                    },
                );
            },
            Err(e) => {
                return Err(e);
            },
        }
    }
    if !outcome.stdout_utf8 {
        return Err(
            CaptureError::ParseFailed { context: "niri msg --json focused-output".to_owned() },
        );
    }
    let body = trim(outcome.stdout.as_str());
    let (flat, nested) = match parse_output_name_fields(body.as_str()) {
        Some(t) => t,
        None => {
            return Err(
                CaptureError::ParseFailed { context: "niri msg --json focused-output".to_owned() },
            );
        },
    };
    if let Some(name) = flat {
        return Ok(name);
    }
    if let Some(name) = nested {
        return Ok(name);
    }
    Err(CaptureError::OutputNameNotFound)
}

} // verus!
