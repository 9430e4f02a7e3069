//! The building blocks of the settings pages: sections, rows, the storage
//! telemetry card and segmented choices.  They hold what the pages put in
//! them and decide how it shows; the element and handler values are the
//! drawing layer's, carried here as type parameters.
use vstd::prelude::*;
use crate::icons::IconName;
use crate::text::{decimal, push_str, u64_to_decimal};

verus! {

/// A titled card of settings rows.
pub struct SettingsSection<C> {
    pub title: String,
    pub subtitle: Option<String>,
    pub children: Vec<C>,
}

impl<C> SettingsSection<C> {
    /// A section with a title and nothing in it yet.
    pub fn new(title: String) -> (s: Self)
        ensures
            s.title == title,
            s.subtitle is None,
            s.children@.len() == 0,
    {
        SettingsSection { title, subtitle: None, children: Vec::new() }
    }

    /// Sets the line under the title.
    pub fn subtitle(self, subtitle: String) -> (s: Self)
        ensures
            s.title == self.title,
            s.subtitle == Some(subtitle),
            s.children == self.children,
    {
        SettingsSection { subtitle: Some(subtitle), ..self }
    }

    /// Appends a child below the ones already there.
    pub fn child(self, child: C) -> (s: Self)
        ensures
            s.title == self.title,
            s.subtitle == self.subtitle,
            s.children@ == self.children@.push(child),
    {
        let mut s = self;
        s.children.push(child);
        s
    }

    /// Whether child `idx` is drawn with a rule above it: every child but
    /// the first.
    pub fn separated(&self, idx: usize) -> (r: bool)
        ensures
            r == (idx > 0),
    {
        idx > 0
    }
}

/// How a row's title is coloured.
#[derive(Clone, Copy, Debug, PartialEq, Eq, Structural)]
pub enum RowTone {
    Destructive,
    Muted,
    Normal,
}

/// What a row shows at its right end.
#[derive(Clone, Copy, Debug, PartialEq, Eq, Structural)]
pub enum RowTrailing {
    /// The element the page supplied.
    Custom,
    /// A switch in position `on`; clicking it hands `!on` to the toggle
    /// handler, when there is one.
    Switch { on: bool, toggles: bool },
    /// The value text, if any, then a chevron when the row can be pressed.
    Value { shows_value: bool, chevron: bool },
}

/// One row of a settings section.  `E` is the type of a custom trailing
/// element, `T` that of a toggle handler and `P` that of a press handler.
pub struct SettingsRow<E, T, P> {
    pub id: String,
    pub icon: Option<IconName>,
    pub title: String,
    pub subtitle: Option<String>,
    pub value: Option<String>,
    pub destructive: bool,
    pub disabled: bool,
    pub switch_on: Option<bool>,
    pub custom_trailing: Option<E>,
    pub on_toggle: Option<T>,
    pub on_press: Option<P>,
}

/// The two rows agree on their id, title, trailing element and handlers:
/// the fields that the plain builder calls leave alone.
pub open spec fn row_keeps<E, T, P>(a: SettingsRow<E, T, P>, b: SettingsRow<E, T, P>) -> bool {
    &&& a.id == b.id
    &&& a.title == b.title
    &&& a.custom_trailing == b.custom_trailing
    &&& a.on_toggle == b.on_toggle
    &&& a.on_press == b.on_press
}

impl<E, T, P> SettingsRow<E, T, P> {
    /// A plain row: a title and nothing else.
    pub fn new(id: String, title: String) -> (r: Self)
        ensures
            r.id == id,
            r.title == title,
            r.icon is None,
            r.subtitle is None,
            r.value is None,
            !r.destructive,
            !r.disabled,
            r.switch_on is None,
            r.custom_trailing is None,
            r.on_toggle is None,
            r.on_press is None,
    {
        SettingsRow {
            id,
            icon: None,
            title,
            subtitle: None,
            value: None,
            destructive: false,
            disabled: false,
            switch_on: None,
            custom_trailing: None,
            on_toggle: None,
            on_press: None,
        }
    }

    /// Sets the leading icon.
    pub fn icon(self, icon: IconName) -> (r: Self)
        ensures
            r.icon == Some(icon),
            row_keeps(r, self),
            r.subtitle == self.subtitle && r.value == self.value,
            r.destructive == self.destructive && r.disabled == self.disabled,
            r.switch_on == self.switch_on,
    {
        SettingsRow { icon: Some(icon), ..self }
    }

    /// Sets the line under the title.
    pub fn subtitle(self, subtitle: String) -> (r: Self)
        ensures
            r.subtitle == Some(subtitle),
            row_keeps(r, self),
            r.icon == self.icon && r.value == self.value,
            r.destructive == self.destructive && r.disabled == self.disabled,
            r.switch_on == self.switch_on,
    {
        SettingsRow { subtitle: Some(subtitle), ..self }
    }

    /// Sets the value text shown at the right.
    pub fn value(self, value: String) -> (r: Self)
        ensures
            r.value == Some(value),
            row_keeps(r, self),
            r.icon == self.icon && r.subtitle == self.subtitle,
            r.destructive == self.destructive && r.disabled == self.disabled,
            r.switch_on == self.switch_on,
    {
        SettingsRow { value: Some(value), ..self }
    }

    /// Marks the row as destructive (or not).
    pub fn destructive(self, destructive: bool) -> (r: Self)
        ensures
            r.destructive == destructive,
            row_keeps(r, self),
            r.icon == self.icon && r.subtitle == self.subtitle && r.value == self.value,
            r.disabled == self.disabled,
            r.switch_on == self.switch_on,
    {
        SettingsRow { destructive, ..self }
    }

    /// Marks the row as disabled (or not).
    pub fn disabled(self, disabled: bool) -> (r: Self)
        ensures
            r.disabled == disabled,
            row_keeps(r, self),
            r.icon == self.icon && r.subtitle == self.subtitle && r.value == self.value,
            r.destructive == self.destructive,
            r.switch_on == self.switch_on,
    {
        SettingsRow { disabled, ..self }
    }

    /// Shows a switch in position `on`.
    pub fn switch(self, on: bool) -> (r: Self)
        ensures
            r.switch_on == Some(on),
            row_keeps(r, self),
            r.icon == self.icon && r.subtitle == self.subtitle && r.value == self.value,
            r.destructive == self.destructive && r.disabled == self.disabled,
    {
        SettingsRow { switch_on: Some(on), ..self }
    }

    /// Shows this element at the right, in place of a switch or value.
    pub fn custom_trailing(self, el: E) -> (r: Self)
        ensures
            r.custom_trailing == Some(el),
            r.id == self.id && r.title == self.title,
            r.on_toggle == self.on_toggle && r.on_press == self.on_press,
            r.icon == self.icon && r.subtitle == self.subtitle && r.value == self.value,
            r.destructive == self.destructive && r.disabled == self.disabled,
            r.switch_on == self.switch_on,
    {
        SettingsRow { custom_trailing: Some(el), ..self }
    }

    /// Sets what the switch does when clicked.
    pub fn on_toggle(self, handler: T) -> (r: Self)
        ensures
            r.on_toggle == Some(handler),
            r.id == self.id && r.title == self.title,
            r.custom_trailing == self.custom_trailing && r.on_press == self.on_press,
            r.icon == self.icon && r.subtitle == self.subtitle && r.value == self.value,
            r.destructive == self.destructive && r.disabled == self.disabled,
            r.switch_on == self.switch_on,
    {
        SettingsRow { on_toggle: Some(handler), ..self }
    }

    /// Sets what pressing the row does.
    pub fn on_press(self, handler: P) -> (r: Self)
        ensures
            r.on_press == Some(handler),
            r.id == self.id && r.title == self.title,
            r.custom_trailing == self.custom_trailing && r.on_toggle == self.on_toggle,
            r.icon == self.icon && r.subtitle == self.subtitle && r.value == self.value,
            r.destructive == self.destructive && r.disabled == self.disabled,
            r.switch_on == self.switch_on,
    {
        SettingsRow { on_press: Some(handler), ..self }
    }

    /// The title's colour: destructive first, then disabled.
    pub fn title_tone(&self) -> (t: RowTone)
        ensures
            self.destructive ==> t == RowTone::Destructive,
            !self.destructive && self.disabled ==> t == RowTone::Muted,
            !self.destructive && !self.disabled ==> t == RowTone::Normal,
    {
        if self.destructive {
            RowTone::Destructive
        } else if self.disabled {
            RowTone::Muted
        } else {
            RowTone::Normal
        }
    }

    /// The row reacts to a press: it has a press handler and is enabled.
    pub fn is_clickable(&self) -> (r: bool)
        ensures
            r == (!self.disabled && self.on_press is Some),
    {
        !self.disabled && self.on_press.is_some()
    }

    /// What the row shows at its right end: the custom element if any, else
    /// the switch if any, else the value and a chevron for a pressable row.
    pub fn trailing(&self) -> (t: RowTrailing)
        ensures
            self.custom_trailing is Some ==> t == RowTrailing::Custom,
            self.custom_trailing is None && self.switch_on is Some ==> t == (RowTrailing::Switch {
                on: self.switch_on->0,
                toggles: self.on_toggle is Some,
            }),
            self.custom_trailing is None && self.switch_on is None ==> t == (RowTrailing::Value {
                shows_value: self.value is Some,
                chevron: self.on_press is Some,
            }),
    {
        if self.custom_trailing.is_some() {
            RowTrailing::Custom
        } else {
            match self.switch_on {
                Some(on) => RowTrailing::Switch { on, toggles: self.on_toggle.is_some() },
                None => RowTrailing::Value {
                    shows_value: self.value.is_some(),
                    chevron: self.on_press.is_some(),
                },
            }
        }
    }
}

/// The storage card: where the vault lives and how its notes divide between
/// live ones and the trash.  `R` is the type of the "Open Directory" handler.
pub struct SettingsTelemetry<R> {
    pub title: String,
    pub path: String,
    pub total_size: String,
    pub active_count: usize,
    pub active_size: String,
    pub trashed_count: usize,
    pub trashed_size: String,
    pub on_reveal: Option<R>,
}

impl<R> SettingsTelemetry<R> {
    /// An empty card: no notes, every size "0 B".
    pub fn new(title: String, path: String) -> (t: Self)
        ensures
            t.title == title,
            t.path == path,
            t.total_size@ == "0 B"@,
            t.active_count == 0,
            t.active_size@ == "0 B"@,
            t.trashed_count == 0,
            t.trashed_size@ == "0 B"@,
            t.on_reveal is None,
    {
        SettingsTelemetry {
            title,
            path,
            total_size: "0 B".to_owned(),
            active_count: 0,
            active_size: "0 B".to_owned(),
            trashed_count: 0,
            trashed_size: "0 B".to_owned(),
            on_reveal: None,
        }
    }

    /// Sets the size of the whole vault.
    pub fn total_size(self, size: String) -> (t: Self)
        ensures
            t.total_size == size,
            t.title == self.title && t.path == self.path,
            t.active_count == self.active_count && t.active_size == self.active_size,
            t.trashed_count == self.trashed_count && t.trashed_size == self.trashed_size,
            t.on_reveal == self.on_reveal,
    {
        SettingsTelemetry { total_size: size, ..self }
    }

    /// Sets the number and size of the live notes.
    pub fn active_notes(self, count: usize, size: String) -> (t: Self)
        ensures
            t.active_count == count && t.active_size == size,
            t.title == self.title && t.path == self.path && t.total_size == self.total_size,
            t.trashed_count == self.trashed_count && t.trashed_size == self.trashed_size,
            t.on_reveal == self.on_reveal,
    {
        SettingsTelemetry { active_count: count, active_size: size, ..self }
    }

    /// Sets the number and size of the notes in the trash.
    pub fn trashed_notes(self, count: usize, size: String) -> (t: Self)
        ensures
            t.trashed_count == count && t.trashed_size == size,
            t.title == self.title && t.path == self.path && t.total_size == self.total_size,
            t.active_count == self.active_count && t.active_size == self.active_size,
            t.on_reveal == self.on_reveal,
    {
        SettingsTelemetry { trashed_count: count, trashed_size: size, ..self }
    }

    /// Sets what "Open Directory" does; the button shows only with one.
    pub fn on_reveal(self, handler: R) -> (t: Self)
        ensures
            t.on_reveal == Some(handler),
            t.title == self.title && t.path == self.path && t.total_size == self.total_size,
            t.active_count == self.active_count && t.active_size == self.active_size,
            t.trashed_count == self.trashed_count && t.trashed_size == self.trashed_size,
    {
        SettingsTelemetry { on_reveal: Some(handler), ..self }
    }

    /// "n active notes (size)".
    pub fn active_label(&self) -> (r: String)
        ensures
            r@ == decimal(self.active_count as nat) + " active notes ("@ + self.active_size@
                + ")"@,
    {
        let mut r = u64_to_decimal(self.active_count as u64);
        push_str(&mut r, " active notes (");
        push_str(&mut r, self.active_size.as_str());
        push_str(&mut r, ")");
        r
    }

    /// "n in trash (size)".
    pub fn trash_label(&self) -> (r: String)
        ensures
            r@ == decimal(self.trashed_count as nat) + " in trash ("@ + self.trashed_size@ + ")"@,
    {
        let mut r = u64_to_decimal(self.trashed_count as u64);
        push_str(&mut r, " in trash (");
        push_str(&mut r, self.trashed_size.as_str());
        push_str(&mut r, ")");
        r
    }

    /// The usage bar has a trash segment only when the trash holds notes.
    pub fn shows_trash_segment(&self) -> (r: bool)
        ensures
            r == (self.trashed_count > 0),
    {
        self.trashed_count > 0
    }
}

/// One choice of a segmented control.
pub struct SettingsSegmentedOption<H> {
    pub label: String,
    pub icon: Option<IconName>,
    pub active: bool,
    pub on_click: H,
}

/// A row of mutually exclusive choices, in the order they were added.
pub struct SettingsSegmented<H> {
    pub id: String,
    pub options: Vec<SettingsSegmentedOption<H>>,
}

impl<H> SettingsSegmented<H> {
    /// A control with no choices yet.
    pub fn new(id: String) -> (s: Self)
        ensures
            s.id == id,
            s.options@.len() == 0,
    {
        SettingsSegmented { id, options: Vec::new() }
    }

    /// Appends a choice after the ones already there.
    pub fn option(self, label: String, icon: Option<IconName>, active: bool, on_click: H) -> (s:
        Self)
        ensures
            s.id == self.id,
            s.options@ == self.options@.push(
                SettingsSegmentedOption { label, icon, active, on_click },
            ),
    {
        let mut s = self;
        s.options.push(SettingsSegmentedOption { label, icon, active, on_click });
        s
    }
}

} // verus!
