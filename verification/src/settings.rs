//! The settings screen: its sections, the search over them, and the
//! keybinding capture that runs inside it.
use vstd::prelude::*;
use crate::icons::IconName;
use crate::keybinding::{finish_capture, keystroke_from_event, keystroke_spec, KeybindingCapture, Modifiers};
use crate::text::{contains, join_with, views, eq_ascii_nocase, eq_ignore_ascii_case, lower_text, seq_contains, to_lowercase, trim, trimmed};

verus! {

/// The sections of the settings screen.
#[derive(Clone, Copy, Debug, PartialEq, Eq, Structural)]
pub enum SettingsSectionId {
    Account,
    Sync,
    Storage,
    Keybindings,
    Developer,
    Updates,
    About,
}

/// All sections, in navigation order.
pub open spec fn all_sections() -> Seq<SettingsSectionId> {
    seq![
        SettingsSectionId::Account,
        SettingsSectionId::Sync,
        SettingsSectionId::Storage,
        SettingsSectionId::Keybindings,
        SettingsSectionId::Developer,
        SettingsSectionId::Updates,
        SettingsSectionId::About,
    ]
}

/// The sections under "WORKSPACE".
pub open spec fn workspace_sections() -> Seq<SettingsSectionId> {
    seq![SettingsSectionId::Account, SettingsSectionId::Keybindings]
}

/// The sections under "SYSTEM & ENGINE".
pub open spec fn system_sections() -> Seq<SettingsSectionId> {
    seq![
        SettingsSectionId::Sync,
        SettingsSectionId::Storage,
        SettingsSectionId::Developer,
        SettingsSectionId::Updates,
        SettingsSectionId::About,
    ]
}

/// The words a search query is matched against, per section.
pub open spec fn keywords(section: SettingsSectionId) -> Seq<char> {
    match section {
        SettingsSectionId::Account => "account profile user local offline vault"@,
        SettingsSectionId::Sync => "sync server connect websocket cloud backend url disconnect auto"@,
        SettingsSectionId::Storage => "data storage database sqlite export backup markdown json vacuum trash"@,
        SettingsSectionId::Keybindings => "keybindings shortcuts keyboard capture actions keys"@,
        SettingsSectionId::Developer => "flags benchmark dev developer performance test tools hud fps"@,
        SettingsSectionId::Updates => "update updates upgrade channel stable beta alpha version download install check"@,
        SettingsSectionId::About => "about version tnotes github repo license source"@,
    }
}

/// A section matches a query when the query is empty or its lower-cased
/// form occurs in the section's words.
pub open spec fn matches_query(section: SettingsSectionId, query: Seq<char>) -> bool {
    query.len() == 0 || seq_contains(keywords(section), lower_text(query))
}

fn section_keywords(section: SettingsSectionId) -> (r: &'static str)
    ensures
        r@ == keywords(section),
{
    match section {
        SettingsSectionId::Account => "account profile user local offline vault",
        SettingsSectionId::Sync => "sync server connect websocket cloud backend url disconnect auto",
        SettingsSectionId::Storage => "data storage database sqlite export backup markdown json vacuum trash",
        SettingsSectionId::Keybindings => "keybindings shortcuts keyboard capture actions keys",
        SettingsSectionId::Developer => "flags benchmark dev developer performance test tools hud fps",
        SettingsSectionId::Updates => "update updates upgrade channel stable beta alpha version download install check",
        SettingsSectionId::About => "about version tnotes github repo license source",
    }
}

/// The sections, among `group`, that match a query, in order.
pub open spec fn matching_spec(group: Seq<SettingsSectionId>, query: Seq<char>) -> Seq<SettingsSectionId> {
    group.filter(|s: SettingsSectionId| matches_query(s, query))
}

/// The section shown after the search query changed to `query` (trimmed):
/// the active one, unless the query is not blank, the active section does
/// not match it and some section does; then the first section that matches.
pub open spec fn section_after_search(active: SettingsSectionId, query: Seq<char>) -> SettingsSectionId {
    let q = trimmed(query);
    if q.len() > 0 && !matches_query(active, q) && matching_spec(all_sections(), q).len() > 0 {
        matching_spec(all_sections(), q)[0]
    } else {
        active
    }
}

/// After a search query that some section matches, the section shown
/// matches it: either the one shown before did, or the first match is shown.
pub proof fn lemma_search_shows_a_match(active: SettingsSectionId, query: Seq<char>)
    requires
        matching_spec(all_sections(), trimmed(query)).len() > 0,
    ensures
        matches_query(section_after_search(active, query), trimmed(query)),
{
    let q = trimmed(query);
    let pred = |s: SettingsSectionId| matches_query(s, q);
    if q.len() > 0 && !matches_query(active, q) {
        all_sections().lemma_filter_pred(pred, 0);
    }
}

/// The search keeps the section shown whenever it matches the query; it
/// moves only away from a section that does not match, and then to the
/// first section (in navigation order) that does.
pub proof fn lemma_search_keeps_a_matching_section(active: SettingsSectionId, query: Seq<char>)
    ensures
        matches_query(active, trimmed(query)) ==> section_after_search(active, query) == active,
        section_after_search(active, query) != active ==> {
            let s = section_after_search(active, query);
            &&& !matches_query(active, trimmed(query))
            &&& matches_query(s, trimmed(query))
            &&& exists|k: int|
                0 <= k < all_sections().len() && all_sections()[k] == s && forall|j: int|
                    0 <= j < k ==> !matches_query(#[trigger] all_sections()[j], trimmed(query))
        },
{
    let q = trimmed(query);
    let pred = |s: SettingsSectionId| matches_query(s, q);
    let m = matching_spec(all_sections(), q);
    if section_after_search(active, query) != active {
        all_sections().lemma_filter_pred(pred, 0);
        reveal_with_fuel(Seq::filter, 8);
        let a = all_sections();
        assert(a.len() == 7);
        if pred(a[0]) {
            assert(m[0] == a[0]);
            assert(forall|j: int| 0 <= j < 0 ==> !matches_query(#[trigger] a[j], q));
        } else if pred(a[1]) {
            assert(m[0] == a[1]);
        } else if pred(a[2]) {
            assert(m[0] == a[2]);
        } else if pred(a[3]) {
            assert(m[0] == a[3]);
        } else if pred(a[4]) {
            assert(m[0] == a[4]);
        } else if pred(a[5]) {
            assert(m[0] == a[5]);
        } else {
            assert(m[0] == a[6]);
        }
    }
}

impl SettingsSectionId {
    /// Whether an already lower-cased query occurs in the section's words.
    pub fn keywords_contain(self, lowered: &str) -> (r: bool)
        ensures
            r == seq_contains(keywords(self), lowered@),
    {
        contains(section_keywords(self), lowered)
    }

    /// All sections, in navigation order.
    pub fn all() -> (r: Vec<SettingsSectionId>)
        ensures
            r@ == all_sections(),
    {
        let r = vec![
            SettingsSectionId::Account,
            SettingsSectionId::Sync,
            SettingsSectionId::Storage,
            SettingsSectionId::Keybindings,
            SettingsSectionId::Developer,
            SettingsSectionId::Updates,
            SettingsSectionId::About,
        ];
        assert(r@ =~= all_sections());
        r
    }

    /// The "WORKSPACE" sections.
    pub fn workspace() -> (r: Vec<SettingsSectionId>)
        ensures
            r@ == workspace_sections(),
    {
        let r = vec![SettingsSectionId::Account, SettingsSectionId::Keybindings];
        assert(r@ =~= workspace_sections());
        r
    }

    /// The "SYSTEM & ENGINE" sections.
    pub fn system() -> (r: Vec<SettingsSectionId>)
        ensures
            r@ == system_sections(),
    {
        let r = vec![
            SettingsSectionId::Sync,
            SettingsSectionId::Storage,
            SettingsSectionId::Developer,
            SettingsSectionId::Updates,
            SettingsSectionId::About,
        ];
        assert(r@ =~= system_sections());
        r
    }

    /// The section's name.
    pub fn title(self) -> (r: &'static str)
        ensures
            r@ == match self {
                SettingsSectionId::Account => "Account"@,
                SettingsSectionId::Sync => "Sync"@,
                SettingsSectionId::Storage => "Storage"@,
                SettingsSectionId::Keybindings => "Keybindings"@,
                SettingsSectionId::Developer => "Developer"@,
                SettingsSectionId::Updates => "Updates"@,
                SettingsSectionId::About => "About"@,
            },
    {
        match self {
            SettingsSectionId::Account => "Account",
            SettingsSectionId::Sync => "Sync",
            SettingsSectionId::Storage => "Storage",
            SettingsSectionId::Keybindings => "Keybindings",
            SettingsSectionId::Developer => "Developer",
            SettingsSectionId::Updates => "Updates",
            SettingsSectionId::About => "About",
        }
    }

    /// The line under the section's name.
    pub fn description(self) -> (r: &'static str)
        ensures
            r@ == match self {
                SettingsSectionId::Account => "Personal vault identity, filesystem location, and storage overview."@,
                SettingsSectionId::Sync => "Pairing status, sync server connection, and synchronization engine."@,
                SettingsSectionId::Storage => "Local database metrics, index maintenance, and vault exports."@,
                SettingsSectionId::Keybindings => "Keyboard shortcuts, quick search, command navigation, and key capture."@,
                SettingsSectionId::Developer => "GPUI engine diagnostics, frame budgets, and runtime telemetry."@,
                SettingsSectionId::Updates => "Release channel, update checks, and installation status."@,
                SettingsSectionId::About => "Version information, system architecture, and project repository."@,
            },
    {
        match self {
            SettingsSectionId::Account => "Personal vault identity, filesystem location, and storage overview.",
            SettingsSectionId::Sync => "Pairing status, sync server connection, and synchronization engine.",
            SettingsSectionId::Storage => "Local database metrics, index maintenance, and vault exports.",
            SettingsSectionId::Keybindings => "Keyboard shortcuts, quick search, command navigation, and key capture.",
            SettingsSectionId::Developer => "GPUI engine diagnostics, frame budgets, and runtime telemetry.",
            SettingsSectionId::Updates => "Release channel, update checks, and installation status.",
            SettingsSectionId::About => "Version information, system architecture, and project repository.",
        }
    }

    /// The section's icon.
    pub fn icon(self) -> (r: IconName)
        ensures
            r == match self {
                SettingsSectionId::Account => IconName::User,
                SettingsSectionId::Sync => IconName::RefreshCw,
                SettingsSectionId::Storage => IconName::Database,
                SettingsSectionId::Keybindings => IconName::Keyboard,
                SettingsSectionId::Developer => IconName::Code,
                SettingsSectionId::Updates => IconName::Rocket,
                SettingsSectionId::About => IconName::CircleInfo,
            },
    {
        match self {
            SettingsSectionId::Account => IconName::User,
            SettingsSectionId::Sync => IconName::RefreshCw,
            SettingsSectionId::Storage => IconName::Database,
            SettingsSectionId::Keybindings => IconName::Keyboard,
            SettingsSectionId::Developer => IconName::Code,
            SettingsSectionId::Updates => IconName::Rocket,
            SettingsSectionId::About => IconName::CircleInfo,
        }
    }
}

/// What a key press did to a keybinding capture.
pub enum CaptureKeyOutcome {
    /// No capture runs; the press is for the screen (Escape closes it).
    NotCapturing,
    /// Escape ended the capture.
    Cancelled,
    /// The press made no keystroke (a bare modifier); the capture goes on.
    Ignored,
    /// The keystroke is to be bound to the captured action; the capture is
    /// handed back so that [`SettingsView::finish_capture`] can settle it.
    Commit { capture: KeybindingCapture, keystroke: String },
}

/// The settings screen.
pub struct SettingsView {
    pub active_section: SettingsSectionId,
    pub capturing: Option<KeybindingCapture>,
    pub search_query: String,
}

impl SettingsView {
    /// The screen opens on the account section, with no capture and no query.
    pub fn new() -> (s: Self)
        ensures
            s.active_section == SettingsSectionId::Account,
            s.capturing is None,
            s.search_query@.len() == 0,
    {
        SettingsView {
            active_section: SettingsSectionId::Account,
            capturing: None,
            search_query: String::new(),
        }
    }

    /// The section shown.
    pub fn active_section(&self) -> (r: SettingsSectionId)
        ensures
            r == self.active_section,
    {
        self.active_section
    }

    /// Shows a section; a capture in progress ends.
    pub fn select_section(&mut self, section: SettingsSectionId)
        ensures
            final(self).active_section == section,
            final(self).capturing is None,
            final(self).search_query == old(self).search_query,
    {
        self.active_section = section;
        self.capturing = None;
    }

    /// The capture in progress, if any.
    pub fn capturing(&self) -> (r: Option<&KeybindingCapture>)
        ensures
            match self.capturing {
                Some(c) => r == Some(&c),
                None => r is None,
            },
    {
        self.capturing.as_ref()
    }

    /// Starts capturing a keystroke for an action.
    pub fn begin_capture(&mut self, action_id: &str, label: &str)
        ensures
            final(self).capturing matches Some(c) && c.action_id@ == action_id@ && c.label@
                == label@ && c.preview is None && c.conflict is None,
            final(self).active_section == old(self).active_section,
            final(self).search_query == old(self).search_query,
    {
        self.capturing = Some(KeybindingCapture::new(action_id, label));
    }

    /// Ends the capture in progress; tells whether there was one.
    pub fn cancel_capture(&mut self) -> (was_capturing: bool)
        ensures
            was_capturing == (old(self).capturing is Some),
            final(self).capturing is None,
            final(self).active_section == old(self).active_section,
            final(self).search_query == old(self).search_query,
    {
        self.capturing.take().is_some()
    }

    /// The keymap went back to its defaults (the caller saves and rebinds
    /// it): any capture in progress ends.
    pub fn reset_keymap(&mut self)
        ensures
            final(self).capturing is None,
            final(self).active_section == old(self).active_section,
            final(self).search_query == old(self).search_query,
    {
        self.capturing = None;
    }

    /// Feeds a key press to the capture in progress.  Escape cancels it; a
    /// press that makes no keystroke leaves it running; any other press
    /// takes the capture out, to be bound and then settled.
    pub fn handle_capture_key(&mut self, key: &str, modifiers: Modifiers) -> (outcome:
        CaptureKeyOutcome)
        ensures
            final(self).active_section == old(self).active_section,
            final(self).search_query == old(self).search_query,
            old(self).capturing is None ==> outcome is NotCapturing && final(self).capturing
                is None,
            old(self).capturing is Some && eq_ascii_nocase(key@, "escape"@) ==> outcome
                is Cancelled && final(self).capturing is None,
            old(self).capturing is Some && !eq_ascii_nocase(key@, "escape"@) && keystroke_spec(
                key@,
                modifiers,
            ) is None ==> outcome is Ignored && final(self).capturing == old(self).capturing,
            old(self).capturing is Some && !eq_ascii_nocase(key@, "escape"@) && keystroke_spec(
                key@,
                modifiers,
            ) is Some ==> (outcome matches CaptureKeyOutcome::Commit { capture, keystroke }
                && Some(capture) == old(self).capturing && keystroke@ == keystroke_spec(
                key@,
                modifiers,
            )->0) && final(self).capturing is None,
    {
        if self.capturing.is_none() {
            return CaptureKeyOutcome::NotCapturing;
        }
        if eq_ignore_ascii_case(key, "escape") {
            self.capturing = None;
            return CaptureKeyOutcome::Cancelled;
        }
        match keystroke_from_event(key, modifiers) {
            None => CaptureKeyOutcome::Ignored,
            Some(keystroke) => {
                let capture = self.capturing.take().unwrap();
                CaptureKeyOutcome::Commit { capture, keystroke }
            },
        }
    }

    /// Settles a capture whose keystroke was bound, given the other actions
    /// that use the keystroke: without such actions the capture is over;
    /// with some it stays on screen, showing them.
    pub fn finish_capture(&mut self, capture: KeybindingCapture, keystroke: String, conflicts: &Vec<
        String,
    >)
        ensures
            conflicts.len() == 0 ==> final(self).capturing is None,
            conflicts.len() > 0 ==> (final(self).capturing matches Some(c) && c.action_id
                == capture.action_id && c.label == capture.label && c.preview == Some(keystroke)
                && (c.conflict matches Some(x) && x@ == join_with(views(conflicts@), ", "@))),
            final(self).active_section == old(self).active_section,
            final(self).search_query == old(self).search_query,
    {
        self.capturing = finish_capture(capture, keystroke, conflicts);
    }

    /// Whether a section matches a search query.
    pub fn section_matches_query(&self, section: SettingsSectionId, query: &str) -> (r: bool)
        ensures
            r == matches_query(section, query@),
    {
        if query.is_empty() {
            return true;
        }
        let q = to_lowercase(query);
        section.keywords_contain(q.as_str())
    }

    /// The sections of a navigation group that match the current query.
    pub fn matching_sections(&self, group: &Vec<SettingsSectionId>) -> (r: Vec<SettingsSectionId>)
        ensures
            r@ == matching_spec(group@, trimmed(self.search_query@)),
    {
        let q = trim(self.search_query.as_str());
        let mut out: Vec<SettingsSectionId> = Vec::new();
        let mut i: usize = 0;
        while i < group.len()
            invariant
                i <= group.len(),
                q@ == trimmed(self.search_query@),
                out@ == group@.take(i as int).filter(|s: SettingsSectionId| matches_query(s, q@)),
            decreases group.len() - i,
        {
            proof {
                assert(group@.take(i + 1).drop_last() =~= group@.take(i as int));
                reveal_with_fuel(Seq::filter, 1);
            }
            if self.section_matches_query(group[i], q.as_str()) {
                out.push(group[i]);
            }
            assert(out@ =~= group@.take(i + 1).filter(|s: SettingsSectionId| matches_query(s, q@)));
            i += 1;
        }
        assert(group@.take(group.len() as int) =~= group@);
        out
    }

    /// Whether any section matches the current query (a blank query matches).
    pub fn has_any_match(&self) -> (r: bool)
        ensures
            r == (trimmed(self.search_query@).len() == 0 || matching_spec(
                all_sections(),
                trimmed(self.search_query@),
            ).len() > 0),
    {
        let q = trim(self.search_query.as_str());
        if q.as_str().is_empty() {
            return true;
        }
        let all = SettingsSectionId::all();
        let m = self.matching_sections(&all);
        m.len() > 0
    }

    /// Takes a new search query.  When it is not blank and the shown section
    /// does not match it, the first section that matches is shown instead
    /// (if any does).
    pub fn set_search_query(&mut self, query: String)
        ensures
            final(self).search_query == query,
            final(self).active_section == section_after_search(old(self).active_section, query@),
            final(self).active_section != old(self).active_section ==> final(self).capturing
                is None,
            final(self).active_section == old(self).active_section ==> final(self).capturing
                == old(self).capturing,
    {
        self.search_query = query;
        let q = trim(self.search_query.as_str());
        if !q.as_str().is_empty() && !self.section_matches_query(self.active_section, q.as_str()) {
            let all = SettingsSectionId::all();
            let m = self.matching_sections(&all);
            if m.len() > 0 {
                let first = m[0];
                self.select_section(first);
            }
        }
    }
}

} // verus!
