use tnotes::icons::IconName;
use tnotes::settings_components::{
    RowTone, RowTrailing, SettingsRow, SettingsSection, SettingsSegmented, SettingsTelemetry,
};

type Row = SettingsRow<&'static str, u8, u16>;

#[test]
fn rows_pick_tone_and_trailing() {
    let r: Row = SettingsRow::new("row".to_string(), "Vacuum".to_string());
    assert_eq!(r.title_tone(), RowTone::Normal);
    assert!(!r.is_clickable());
    assert_eq!(r.trailing(), RowTrailing::Value { shows_value: false, chevron: false });

    let r = r.value("3 notes".to_string()).on_press(7).icon(IconName::Database);
    assert!(r.is_clickable());
    assert_eq!(r.trailing(), RowTrailing::Value { shows_value: true, chevron: true });
    assert_eq!(r.icon, Some(IconName::Database));

    let r = r.disabled(true);
    assert!(!r.is_clickable());
    assert_eq!(r.title_tone(), RowTone::Muted);
    let r = r.destructive(true);
    assert_eq!(r.title_tone(), RowTone::Destructive);

    let s: Row = SettingsRow::new("sw".to_string(), "Launch".to_string()).switch(true);
    assert_eq!(s.trailing(), RowTrailing::Switch { on: true, toggles: false });
    let s = s.on_toggle(1);
    assert_eq!(s.trailing(), RowTrailing::Switch { on: true, toggles: true });
    let s = s.custom_trailing("badge");
    assert_eq!(s.trailing(), RowTrailing::Custom);
    assert_eq!(s.subtitle("x".to_string()).subtitle, Some("x".to_string()));
}

#[test]
fn sections_and_segments_keep_order() {
    let sec: SettingsSection<u32> = SettingsSection::new("Storage".to_string());
    let sec = sec.subtitle("Local".to_string()).child(1).child(2);
    assert_eq!(sec.children, vec![1, 2]);
    assert_eq!(sec.subtitle.as_deref(), Some("Local"));
    assert!(!sec.separated(0));
    assert!(sec.separated(1));

    let seg: SettingsSegmented<u8> = SettingsSegmented::new("mode".to_string());
    let seg = seg.option("Light".to_string(), None, false, 0).option(
        "Dark".to_string(),
        Some(IconName::Star),
        true,
        1,
    );
    let labels: Vec<&str> = seg.options.iter().map(|o| o.label.as_str()).collect();
    assert_eq!(labels, vec!["Light", "Dark"]);
    assert!(seg.options[1].active);
}

#[test]
fn telemetry_labels() {
    let t: SettingsTelemetry<()> = SettingsTelemetry::new("Vault".to_string(), "/v".to_string());
    assert_eq!(t.total_size, "0 B");
    assert!(!t.shows_trash_segment());
    let t = t
        .total_size("2.0 KB".to_string())
        .active_notes(3, "3 notes".to_string())
        .trashed_notes(1, "1 notes".to_string())
        .on_reveal(());
    assert_eq!(t.active_label(), "3 active notes (3 notes)");
    assert_eq!(t.trash_label(), "1 in trash (1 notes)");
    assert!(t.shows_trash_segment());
    assert!(t.on_reveal.is_some());
}
