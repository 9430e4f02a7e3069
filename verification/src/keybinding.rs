//! Keystroke strings: capturing one from a key press, showing a stored one
//! as a badge, grouping actions for the keybindings editor, and the
//! bookkeeping of a rebind.
use vstd::prelude::*;
use crate::text::{
    char_to_uppercase, chars_of, concat, eq_ascii_nocase, eq_ignore_ascii_case, join, join_with,
    lower_text, push_str, replace_all, replace_chars, split, split_on, str_eq, string_from,
    to_lowercase, upper_char_text, views,
};

verus! {

/// A rebind in progress in the keybindings editor.
pub struct KeybindingCapture {
    pub action_id: String,
    pub label: String,
    /// The keystroke last pressed, once there is one.
    pub preview: Option<String>,
    /// The actions that already use the captured keystroke, when there are some.
    pub conflict: Option<String>,
}

impl KeybindingCapture {
    /// A capture for one action, with nothing pressed yet.
    pub fn new(action_id: &str, label: &str) -> (c: Self)
        ensures
            c.action_id@ == action_id@,
            c.label@ == label@,
            c.preview is None,
            c.conflict is None,
    {
        KeybindingCapture {
            action_id: action_id.to_owned(),
            label: label.to_owned(),
            preview: None,
            conflict: None,
        }
    }
}

/// The modifier keys held during a key press.
#[derive(Clone, Copy, Debug, PartialEq, Eq, Structural)]
pub struct Modifiers {
    pub control: bool,
    pub alt: bool,
    pub platform: bool,
    pub shift: bool,
}

/// What a user can bind a keystroke to.
pub struct ActionMeta {
    pub id: String,
    pub label: String,
    pub description: String,
    pub category: String,
    pub default_context: Option<String>,
}

// ---------------------------------------------------------------------------
// Capturing a keystroke
// ---------------------------------------------------------------------------

/// The modifier words of a keystroke, in their fixed order.
pub open spec fn modifier_words(m: Modifiers) -> Seq<Seq<char>> {
    (if m.control { seq!["ctrl"@] } else { Seq::empty() }) + (if m.alt { seq!["alt"@] } else {
        Seq::empty()
    }) + (if m.platform { seq!["super"@] } else { Seq::empty() }) + (if m.shift {
        seq!["shift"@]
    } else {
        Seq::empty()
    })
}

/// The key names a modifier by itself: shift, control, alt, platform or
/// function, up to ASCII case.
pub open spec fn is_bare_modifier(key: Seq<char>) -> bool {
    ||| eq_ascii_nocase(key, "shift"@)
    ||| eq_ascii_nocase(key, "control"@)
    ||| eq_ascii_nocase(key, "alt"@)
    ||| eq_ascii_nocase(key, "platform"@)
    ||| eq_ascii_nocase(key, "function"@)
}

/// The canonical keystroke string of a key press: the modifier words and the
/// lower-cased key, joined by '-'.  Escape (which cancels) and a press of a
/// modifier key alone give none.
pub open spec fn keystroke_spec(key: Seq<char>, m: Modifiers) -> Option<Seq<char>> {
    if eq_ascii_nocase(key, "escape"@) || is_bare_modifier(key) {
        None
    } else {
        Some(join_with(modifier_words(m).push(lower_text(key)), "-"@))
    }
}

/// The keystroke string for a key press, or `None` for Escape and for a
/// modifier key pressed alone.
pub fn keystroke_from_event(key: &str, modifiers: Modifiers) -> (r: Option<String>)
    ensures
        match keystroke_spec(key@, modifiers) {
            Some(s) => r matches Some(x) && x@ == s,
            None => r is None,
        },
{
    if eq_ignore_ascii_case(key, "escape") || eq_ignore_ascii_case(key, "shift")
        || eq_ignore_ascii_case(key, "control") || eq_ignore_ascii_case(key, "alt")
        || eq_ignore_ascii_case(key, "platform") || eq_ignore_ascii_case(key, "function") {
        return None;
    }
    let lowered = to_lowercase(key);
    Some(keystroke_with_key(lowered.as_str(), modifiers))
}

/// The keystroke string made of the modifier words and an already
/// lower-cased key, joined by '-'.
pub fn keystroke_with_key(lowered_key: &str, modifiers: Modifiers) -> (r: String)
    ensures
        r@ == join_with(modifier_words(modifiers).push(lowered_key@), "-"@),
{
    let mut parts: Vec<String> = Vec::new();
    if modifiers.control {
        parts.push("ctrl".to_owned());
    }
    if modifiers.alt {
        parts.push("alt".to_owned());
    }
    if modifiers.platform {
        parts.push("super".to_owned());
    }
    if modifiers.shift {
        parts.push("shift".to_owned());
    }
    assert(views(parts@) =~= modifier_words(modifiers));
    parts.push(lowered_key.to_owned());
    assert(views(parts@) =~= modifier_words(modifiers).push(lowered_key@));
    join(&parts, "-")
}

// ---------------------------------------------------------------------------
// Showing a keystroke
// ---------------------------------------------------------------------------

/// One word of a badge: first character upper-cased, the rest lower-cased.
pub open spec fn capitalized(word: Seq<char>) -> Seq<char> {
    if word.len() == 0 {
        Seq::empty()
    } else {
        upper_char_text(word[0]) + lower_text(word.drop_first())
    }
}

/// The badge text of a stored keystroke: its '-'-separated words
/// capitalized and joined by '+' (`ctrl-k` shows as `Ctrl+K`).
pub open spec fn display_spec(stored: Seq<char>) -> Seq<char> {
    join_with(split_on(stored, '-').map_values(|w: Seq<char>| capitalized(w)), "+"@)
}

fn capitalize(word: &str) -> (r: String)
    ensures
        r@ == capitalized(word@),
{
    let v = chars_of(word);
    if v.len() == 0 {
        return String::new();
    }
    let mut r = char_to_uppercase(v[0]);
    let rest = string_from(&v, 1, v.len());
    assert(rest@ =~= word@.drop_first());
    let lower = to_lowercase(rest.as_str());
    push_str(&mut r, lower.as_str());
    r
}

/// The badge text of a stored keystroke.
pub fn display_keystroke(stored: &str) -> (r: String)
    ensures
        r@ == display_spec(stored@),
{
    let words = split(stored, '-');
    let mut shown: Vec<String> = Vec::new();
    let mut i: usize = 0;
    while i < words.len()
        invariant
            i <= words.len(),
            views(words@) == split_on(stored@, '-'),
            views(shown@) == views(words@).take(i as int).map_values(
                |w: Seq<char>| capitalized(w),
            ),
        decreases words.len() - i,
    {
        let c = capitalize(words[i].as_str());
        let ghost prev = shown@;
        shown.push(c);
        proof {
            let target = views(words@).take(i + 1).map_values(|w: Seq<char>| capitalized(w));
            assert(views(words@)[i as int] == words@[i as int]@);
            assert(target.len() == i + 1);
            assert(views(prev).len() == prev.len());
            assert(views(prev).len() == i);
            assert(shown@ == prev.push(c));
            assert(views(shown@).len() == i + 1);
            assert forall|k: int| 0 <= k < i + 1 implies views(shown@)[k] == target[k] by {
                if k < i {
                    assert(shown@[k] == prev[k]);
                    assert(views(prev)[k] == views(words@).take(i as int).map_values(
                        |w: Seq<char>| capitalized(w),
                    )[k]);
                }
            };
            assert(views(shown@) =~= target);
        }
        i += 1;
    }
    assert(views(words@).take(words.len() as int) =~= views(words@));
    join(&shown, "+")
}

/// The label shown for an action's binding: the badge text of its keystroke,
/// followed by " · " and its context when it has one, or "Unbound".
pub open spec fn binding_label_spec(bound: Option<(Seq<char>, Option<Seq<char>>)>) -> Seq<char> {
    match bound {
        Some((key, Some(ctx))) => display_spec(key) + " · "@ + ctx,
        Some((key, None)) => display_spec(key),
        None => "Unbound"@,
    }
}

/// The label shown for an action's binding.
pub fn binding_label(bound: Option<(String, Option<String>)>) -> (r: String)
    ensures
        r@ == binding_label_spec(
            match bound {
                Some((k, c)) => Some(
                    (
                        k@,
                        match c {
                            Some(x) => Some(x@),
                            None => None,
                        },
                    ),
                ),
                None => None,
            },
        ),
{
    match bound {
        Some((key, ctx)) => {
            let mut label = display_keystroke(key.as_str());
            match ctx {
                Some(c) => {
                    push_str(&mut label, " · ");
                    push_str(&mut label, c.as_str());
                },
                None => {},
            }
            label
        },
        None => "Unbound".to_owned(),
    }
}

/// The hint above the keybindings while a capture runs: the conflict notice
/// once a conflicting keystroke was bound, else the prompt.
pub open spec fn capture_hint_spec(c: KeybindingCapture) -> Seq<char> {
    match (c.preview, c.conflict) {
        (Some(keys), Some(conflict)) => "Bound to "@ + keys@ + " — also used by "@ + conflict@
            + ". Press Esc to dismiss."@,
        _ => "Press keystroke for “"@ + c.label@ + "”"@,
    }
}

/// The hint above the keybindings while a capture runs.
pub fn capture_hint(c: &KeybindingCapture) -> (r: String)
    ensures
        r@ == capture_hint_spec(*c),
{
    match (&c.preview, &c.conflict) {
        (Some(keys), Some(conflict)) => {
            let mut r = concat("Bound to ", keys.as_str());
            push_str(&mut r, " — also used by ");
            push_str(&mut r, conflict.as_str());
            push_str(&mut r, ". Press Esc to dismiss.");
            r
        },
        _ => {
            let mut r = concat("Press keystroke for “", c.label.as_str());
            push_str(&mut r, "”");
            r
        },
    }
}

// ---------------------------------------------------------------------------
// Grouping actions by category
// ---------------------------------------------------------------------------

/// Position of the group for `cat`, if any.
pub open spec fn group_of(groups: Seq<(Seq<char>, Seq<int>)>, cat: Seq<char>) -> Option<int> {
    if exists|g: int| 0 <= g < groups.len() && groups[g].0 == cat {
        Some(choose|g: int| 0 <= g < groups.len() && groups[g].0 == cat)
    } else {
        None
    }
}

/// The groups after the first `k` actions: each category once, in order of
/// first appearance, with the positions of its actions in order.
pub open spec fn groups_spec(cats: Seq<Seq<char>>, k: int) -> Seq<(Seq<char>, Seq<int>)>
    decreases k,
{
    if k <= 0 {
        Seq::empty()
    } else {
        let prev = groups_spec(cats, k - 1);
        match group_of(prev, cats[k - 1]) {
            Some(g) => prev.update(g, (prev[g].0, prev[g].1.push(k - 1))),
            None => prev.push((cats[k - 1], seq![k - 1])),
        }
    }
}

/// The categories of a list of actions.
pub open spec fn categories(actions: Seq<ActionMeta>) -> Seq<Seq<char>> {
    actions.map_values(|a: ActionMeta| a.category@)
}

/// The view of the grouping as built.
pub open spec fn groups_view(g: Seq<(String, Vec<usize>)>) -> Seq<(Seq<char>, Seq<int>)> {
    g.map_values(|p: (String, Vec<usize>)| (p.0@, p.1@.map_values(|i: usize| i as int)))
}

/// Total number of positions over all groups.
pub open spec fn total_members(groups: Seq<(Seq<char>, Seq<int>)>) -> int
    decreases groups.len(),
{
    if groups.len() == 0 {
        0
    } else {
        total_members(groups.drop_last()) + groups.last().1.len()
    }
}

proof fn lemma_total_update(groups: Seq<(Seq<char>, Seq<int>)>, g: int, v: (Seq<char>, Seq<int>))
    requires
        0 <= g < groups.len(),
    ensures
        total_members(groups.update(g, v)) == total_members(groups) - groups[g].1.len()
            + v.1.len(),
    decreases groups.len(),
{
    if g == groups.len() - 1 {
        assert(groups.update(g, v).drop_last() =~= groups.drop_last());
    } else {
        assert(groups.update(g, v).drop_last() =~= groups.drop_last().update(g, v));
        lemma_total_update(groups.drop_last(), g, v);
    }
}

/// Every action is in exactly one group: the group sizes add up to the
/// number of actions.
pub proof fn lemma_groups_cover_all(cats: Seq<Seq<char>>, k: int)
    requires
        0 <= k <= cats.len(),
    ensures
        total_members(groups_spec(cats, k)) == k,
    decreases k,
{
    if k > 0 {
        lemma_groups_cover_all(cats, k - 1);
        let prev = groups_spec(cats, k - 1);
        match group_of(prev, cats[k - 1]) {
            Some(g) => {
                lemma_total_update(prev, g, (prev[g].0, prev[g].1.push(k - 1)));
            },
            None => {
                assert(prev.push((cats[k - 1], seq![k - 1])).drop_last() =~= prev);
            },
        }
    }
}

fn find_group(groups: &Vec<(String, Vec<usize>)>, cat: &String) -> (r: Option<usize>)
    ensures
        r matches Some(g) ==> g < groups.len() && groups@[g as int].0@ == cat@,
        r is None ==> forall|g: int| 0 <= g < groups.len() ==> groups@[g].0@ != cat@,
{
    let mut i: usize = 0;
    while i < groups.len()
        invariant
            i <= groups.len(),
            forall|g: int| 0 <= g < i ==> groups@[g].0@ != cat@,
        decreases groups.len() - i,
    {
        if groups[i].0 == *cat {
            return Some(i);
        }
        i += 1;
    }
    None
}

/// Each category names one group only.
pub proof fn lemma_categories_distinct(cats: Seq<Seq<char>>, k: int)
    requires
        0 <= k <= cats.len(),
    ensures
        forall|a: int, b: int|
            0 <= a < b < groups_spec(cats, k).len() ==> groups_spec(cats, k)[a].0 != groups_spec(
                cats,
                k,
            )[b].0,
    decreases k,
{
    if k > 0 {
        lemma_categories_distinct(cats, k - 1);
        let prev = groups_spec(cats, k - 1);
        let cur = groups_spec(cats, k);
        match group_of(prev, cats[k - 1]) {
            Some(g) => {
                assert forall|a: int, b: int| 0 <= a < b < cur.len() implies cur[a].0 != cur[b].0 by {
                    assert(cur[a].0 == prev[a].0);
                    assert(cur[b].0 == prev[b].0);
                };
            },
            None => {
                assert forall|a: int, b: int| 0 <= a < b < cur.len() implies cur[a].0 != cur[b].0 by {
                    if b == prev.len() {
                        assert(cur[a].0 == prev[a].0);
                    } else {
                        assert(cur[a] == prev[a] && cur[b] == prev[b]);
                    }
                };
            },
        }
    }
}

/// Groups actions by category, categories in order of first appearance and
/// actions in their own order (as positions into `actions`).
pub fn actions_by_category(actions: &Vec<ActionMeta>) -> (groups: Vec<(String, Vec<usize>)>)
    ensures
        groups_view(groups@) == groups_spec(categories(actions@), actions@.len() as int),
        total_members(groups_view(groups@)) == actions@.len(),
{
    let ghost cats = categories(actions@);
    let mut groups: Vec<(String, Vec<usize>)> = Vec::new();
    let mut i: usize = 0;
    while i < actions.len()
        invariant
            i <= actions.len(),
            cats == categories(actions@),
            groups_view(groups@) == groups_spec(cats, i as int),
        decreases actions.len() - i,
    {
        let ghost prev = groups_view(groups@);
        proof {
            lemma_categories_distinct(cats, i as int);
        }
        let cat = actions[i].category.clone();
        match find_group(&groups, &cat) {
            Some(g) => {
                proof {
                    assert(prev[g as int].0 == cats[i as int]);
                    let gg = choose|gg: int| 0 <= gg < prev.len() && prev[gg].0 == cats[i as int];
                    assert(gg == g);
                }
                let ghost old_groups = groups@;
                let mut entry = groups.remove(g);
                entry.1.push(i);
                let ghost new_entry = entry;
                groups.insert(g, entry);
                proof {
                    assert(groups@ =~= old_groups.update(g as int, new_entry));
                    assert(new_entry.1@.map_values(|x: usize| x as int) =~= prev[g as int].1.push(
                        i as int,
                    ));
                    assert(groups_view(groups@) =~= prev.update(
                        g as int,
                        (prev[g as int].0, prev[g as int].1.push(i as int)),
                    ));
                }
            },
            None => {
                let mut members: Vec<usize> = Vec::new();
                members.push(i);
                assert(members@.map_values(|x: usize| x as int) =~= seq![i as int]);
                groups.push((cat, members));
                assert(groups_view(groups@) =~= prev.push((cats[i as int], seq![i as int])));
            },
        }
        i += 1;
    }
    proof {
        lemma_groups_cover_all(cats, actions.len() as int);
    }
    groups
}

// ---------------------------------------------------------------------------
// Rows of the keybindings page
// ---------------------------------------------------------------------------

/// The id of an action's row: "settings-key-" and the action id without its
/// "tnotes::" namespace.
pub fn key_row_id(action_id: &str) -> (r: String)
    ensures
        r@ == "settings-key-"@ + replace_all(action_id@, "tnotes::"@, Seq::empty()),
{
    proof {
        reveal_strlit("tnotes::");
    }
    let s = chars_of(action_id);
    let pat = chars_of("tnotes::");
    let none: Vec<char> = Vec::new();
    let short = replace_chars(&s, &pat, &none);
    let tail = string_from(&short, 0, short.len());
    assert(tail@ =~= short@);
    concat("settings-key-", tail.as_str())
}

/// The value an action's row shows: a prompt while this action's keys are
/// being captured, else the label of its binding.
pub fn key_row_value(action_id: &str, bound_label: String, capturing: Option<&KeybindingCapture>) -> (r:
    String)
    ensures
        (capturing matches Some(c) && c.action_id@ == action_id@) ==> r@ == "Press keys…"@,
        !(capturing matches Some(c) && c.action_id@ == action_id@) ==> r == bound_label,
{
    let here = match capturing {
        Some(c) => str_eq(c.action_id.as_str(), action_id),
        None => false,
    };
    if here {
        "Press keys…".to_owned()
    } else {
        bound_label
    }
}

// ---------------------------------------------------------------------------
// Rebinding
// ---------------------------------------------------------------------------

/// The actions already bound to a keystroke, less the one being rebound.
pub fn apply_captured_keystroke(bound_to_keystroke: &Vec<String>, action_id: &str) -> (conflicts:
    Vec<String>)
    ensures
        views(conflicts@) == views(bound_to_keystroke@).filter(|id: Seq<char>| id != action_id@),
{
    let mut out: Vec<String> = Vec::new();
    let mut i: usize = 0;
    while i < bound_to_keystroke.len()
        invariant
            i <= bound_to_keystroke.len(),
            views(out@) == views(bound_to_keystroke@).take(i as int).filter(
                |id: Seq<char>| id != action_id@,
            ),
        decreases bound_to_keystroke.len() - i,
    {
        let ghost t = views(bound_to_keystroke@).take(i + 1);
        proof {
            assert(t.drop_last() =~= views(bound_to_keystroke@).take(i as int));
            reveal_with_fuel(Seq::filter, 1);
        }
        if !str_eq(bound_to_keystroke[i].as_str(), action_id) {
            out.push(bound_to_keystroke[i].clone());
        }
        assert(views(out@) =~= t.filter(|id: Seq<char>| id != action_id@));
        i += 1;
    }
    assert(views(bound_to_keystroke@).take(bound_to_keystroke.len() as int) =~= views(
        bound_to_keystroke@,
    ));
    out
}

/// What remains of a capture once its keystroke has been bound: nothing when
/// no other action uses the keystroke; else the capture again, showing the
/// keystroke and the conflicting actions joined by ", ".
pub fn finish_capture(capture: KeybindingCapture, keystroke: String, conflicts: &Vec<String>) -> (r:
    Option<KeybindingCapture>)
    ensures
        conflicts.len() == 0 ==> r is None,
        conflicts.len() > 0 ==> (r matches Some(c) && c.action_id == capture.action_id && c.label
            == capture.label && c.preview == Some(keystroke) && (c.conflict matches Some(x) && x@
            == join_with(views(conflicts@), ", "@))),
{
    if conflicts.len() == 0 {
        None
    } else {
        Some(
            KeybindingCapture {
                conflict: Some(join(conflicts, ", ")),
                preview: Some(keystroke),
                action_id: capture.action_id,
                label: capture.label,
            },
        )
    }
}

} // verus!
