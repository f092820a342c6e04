//! Which applications a test run compares: the configured slots, in order, that hold
//! a non-blank path; a run needs at least two of them.

use vstd::prelude::*;
use crate::text::{is_white_space, trim, trim_end_spec, trim_spec, trim_start_spec};

verus! {

/// An application chosen for the run: where it is started from and how it is named.
pub struct SelectedApp {
    pub path: String,
    pub name: String,
}

/// Why no run can be made of the configuration.
#[derive(Clone, Copy, Debug, PartialEq, Eq, Structural)]
pub enum SelectionError {
    /// Fewer than two slots hold a path.
    TooFewApps,
}

impl SelectionError {
    /// What the run reports before it stops.
    pub fn message(&self) -> (m: String)
        ensures
            m@ == "At least 2 app paths must be provided in .env (e.g. APP_1_PATH, APP_2_PATH, APP_3_PATH)"@,
    {
        String::from_str("At least 2 app paths must be provided in .env (e.g. APP_1_PATH, APP_2_PATH, APP_3_PATH)")
    }
}

/// The text of an optional configuration value.
pub open spec fn value_view(v: Option<String>) -> Option<Seq<char>> {
    match v {
        Some(s) => Some(s@),
        None => None,
    }
}

/// A slot is configured when it holds a value that is not blank.
pub open spec fn is_configured(v: Option<Seq<char>>) -> bool {
    v matches Some(s) && trim_spec(s).len() > 0
}

/// What a slot adds to the selection: its path under its name, if it is configured.
pub open spec fn slot(v: Option<Seq<char>>, name: Seq<char>) -> Seq<(Seq<char>, Seq<char>)> {
    if is_configured(v) {
        seq![(v.unwrap(), name)]
    } else {
        Seq::empty()
    }
}

/// The configured slots in order, as (path, name): the first slot is named `Dev`, the
/// second `New Branch`, the third `MetaScalp`.
pub open spec fn selection_spec(
    app1: Option<Seq<char>>,
    app2: Option<Seq<char>>,
    app3: Option<Seq<char>>,
) -> Seq<(Seq<char>, Seq<char>)> {
    slot(app1, "Dev"@) + slot(app2, "New Branch"@) + slot(app3, "MetaScalp"@)
}

/// A list of selected applications as (path, name) pairs.
pub open spec fn selected_view(apps: Seq<SelectedApp>) -> Seq<(Seq<char>, Seq<char>)> {
    apps.map_values(|a: SelectedApp| (a.path@, a.name@))
}

fn is_set(v: &Option<String>) -> (r: bool)
    ensures
        r == is_configured(value_view(*v)),
{
    match v {
        Some(s) => trim(s.as_str()).unicode_len() > 0,
        None => false,
    }
}

fn push_slot(apps: &mut Vec<SelectedApp>, v: Option<String>, name: &str)
    ensures
        selected_view(final(apps)@) == selected_view(old(apps)@) + slot(value_view(v), name@),
{
    let set = is_set(&v);
    if set {
        match v {
            Some(path) => {
                apps.push(SelectedApp { path, name: name.to_string() });
            },
            None => {},
        }
    }
    assert(selected_view(final(apps)@) =~= selected_view(old(apps)@) + slot(value_view(v), name@));
}

/// The applications of a run, from the three configuration slots: every slot that
/// holds a non-blank path, in slot order; an error where fewer than two do.
pub fn select_apps(app1: Option<String>, app2: Option<String>, app3: Option<String>) -> (r: Result<
    Vec<SelectedApp>,
    SelectionError,
>)
    ensures
        match r {
            Ok(apps) => selected_view(apps@) == selection_spec(value_view(app1), value_view(app2), value_view(app3))
                && apps@.len() == selection_spec(value_view(app1), value_view(app2), value_view(app3)).len()
                && apps@.len() >= 2
                && (forall|i: int| 0 <= i < apps@.len() ==> has_visible_char((#[trigger] apps@[i]).path@)),
            Err(_) => selection_spec(value_view(app1), value_view(app2), value_view(app3)).len() < 2,
        },
{
    let ghost (v1, v2, v3) = (value_view(app1), value_view(app2), value_view(app3));
    let mut apps: Vec<SelectedApp> = Vec::new();
    assert(selected_view(apps@) =~= Seq::empty());
    push_slot(&mut apps, app1, "Dev");
    push_slot(&mut apps, app2, "New Branch");
    push_slot(&mut apps, app3, "MetaScalp");
    assert(selected_view(apps@) =~= selection_spec(v1, v2, v3));
    proof {
        lemma_selection_is_visible_slots(v1, v2, v3);
        assert forall|i: int| 0 <= i < apps@.len() implies has_visible_char((#[trigger] apps@[i]).path@) by {
            assert(selected_view(apps@)[i] == (apps@[i].path@, apps@[i].name@));
        }
    }
    if apps.len() < 2 {
        Err(SelectionError::TooFewApps)
    } else {
        Ok(apps)
    }
}

/// The text holds some character that is not white space.
pub open spec fn has_visible_char(s: Seq<char>) -> bool {
    exists|j: int| 0 <= j < s.len() && !is_white_space(#[trigger] s[j])
}

/// Trimming the start keeps every character that is not white space, in particular
/// whether there is one.
proof fn lemma_trim_start_keeps_visible(s: Seq<char>)
    ensures
        has_visible_char(trim_start_spec(s)) == has_visible_char(s),
    decreases s.len(),
{
    if s.len() > 0 && is_white_space(s[0]) {
        let rest = s.drop_first();
        lemma_trim_start_keeps_visible(rest);
        if has_visible_char(s) {
            let j = choose|j: int| 0 <= j < s.len() && !is_white_space(#[trigger] s[j]);
            assert(rest[j - 1] == s[j]);
        }
        if has_visible_char(rest) {
            let j = choose|j: int| 0 <= j < rest.len() && !is_white_space(#[trigger] rest[j]);
            assert(s[j + 1] == rest[j]);
        }
    }
}

/// Trimming the end leaves something exactly when there is a character that is not
/// white space.
proof fn lemma_trim_end_empty_iff_blank(s: Seq<char>)
    ensures
        (trim_end_spec(s).len() > 0) == has_visible_char(s),
    decreases s.len(),
{
    if s.len() > 0 {
        if is_white_space(s.last()) {
            let rest = s.drop_last();
            lemma_trim_end_empty_iff_blank(rest);
            if has_visible_char(s) {
                let j = choose|j: int| 0 <= j < s.len() && !is_white_space(#[trigger] s[j]);
                assert(j < s.len() - 1);
                assert(rest[j] == s[j]);
            }
            if has_visible_char(rest) {
                let j = choose|j: int| 0 <= j < rest.len() && !is_white_space(#[trigger] rest[j]);
                assert(s[j] == rest[j]);
            }
        } else {
            assert(!is_white_space(s[s.len() - 1]));
        }
    }
}

/// A configuration value counts exactly when it holds a character that is not white
/// space: empty and all-blank values do not.
pub proof fn lemma_configured_iff_visible(v: Option<Seq<char>>)
    ensures
        is_configured(v) <==> (v matches Some(s) && has_visible_char(s)),
{
    if let Some(s) = v {
        lemma_trim_start_keeps_visible(s);
        lemma_trim_end_empty_iff_blank(trim_start_spec(s));
    }
}

/// The selection holds exactly the slots whose value has a character that is not white
/// space, in slot order: every selected path has one, and a slot with one is selected
/// under its name.
pub proof fn lemma_selection_is_visible_slots(
    app1: Option<Seq<char>>,
    app2: Option<Seq<char>>,
    app3: Option<Seq<char>>,
)
    ensures
        forall|i: int|
            0 <= i < selection_spec(app1, app2, app3).len() ==> has_visible_char(
                (#[trigger] selection_spec(app1, app2, app3)[i]).0,
            ),
        selection_spec(app1, app2, app3).len() == (if app1 matches Some(s) && has_visible_char(s) { 1int } else { 0int })
            + (if app2 matches Some(s) && has_visible_char(s) { 1int } else { 0int })
            + (if app3 matches Some(s) && has_visible_char(s) { 1int } else { 0int }),
        app1 matches Some(s) ==> (has_visible_char(s) ==> selection_spec(app1, app2, app3)[0] == (s, "Dev"@)),
{
    lemma_configured_iff_visible(app1);
    lemma_configured_iff_visible(app2);
    lemma_configured_iff_visible(app3);
    let s1 = slot(app1, "Dev"@);
    let s2 = slot(app2, "New Branch"@);
    let s3 = slot(app3, "MetaScalp"@);
    let sel = selection_spec(app1, app2, app3);
    assert forall|i: int| 0 <= i < sel.len() implies has_visible_char((#[trigger] sel[i]).0) by {
        if i < s1.len() {
            assert(sel[i] == s1[i]);
        } else if i < s1.len() + s2.len() {
            assert(sel[i] == s2[i - s1.len()]);
        } else {
            assert(sel[i] == s3[i - s1.len() - s2.len()]);
        }
    }
}

} // verus!
