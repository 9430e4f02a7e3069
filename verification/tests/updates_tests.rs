use tnotes::icons::IconName;
use tnotes::updates::{has_update_available, ReleaseChannel, UpdateAction, UpdateStatus};

fn available() -> UpdateStatus {
    UpdateStatus::Available {
        version: "1.4.0".to_string(),
        size_mb: "12.5".to_string(),
        changelog_url: Some("https://example.invalid/notes".to_string()),
    }
}

#[test]
fn status_card_texts() {
    let (t, d, e) = UpdateStatus::Idle.status_card("Checked just now", "Stable");
    assert_eq!((t, d.as_str(), e), ("Up to Date", "TNotes is ready to check for updates. Checked just now.", false));
    let (t, d, _) = UpdateStatus::UpToDate.status_card("Never checked", "Beta");
    assert_eq!(t, "You're Up to Date");
    assert_eq!(d, "Running the latest release on the Beta channel. Never checked.");
    let (t, d, _) = available().status_card("x", "y");
    assert_eq!(t, "Update Available");
    assert_eq!(d, "Version v1.4.0 is available for download (12.5 MB).");
    let dl = UpdateStatus::Downloading {
        version: "2.0".to_string(),
        downloaded_mb: "1.0".to_string(),
        total_mb: "3.5".to_string(),
        percent: 29,
    };
    let (t, d, _) = dl.status_card("x", "y");
    assert_eq!(t, "Downloading Update");
    assert_eq!(d, "Downloading v2.0 (1.0 MB / 3.5 MB)...");
    assert_eq!(dl.progress_label(), Some("29% complete".to_string()));
    let ready = UpdateStatus::ReadyToRestart { version: "2.0".to_string(), changelog_url: None };
    assert_eq!(
        ready.status_card("x", "y").1,
        "Version v2.0 has been verified and staged. Restart to complete update."
    );
    let (t, d, e) = UpdateStatus::Error("offline".to_string()).status_card("x", "y");
    assert_eq!((t, d.as_str(), e), ("Update Check Failed", "offline", true));
    assert_eq!(UpdateStatus::Checking.status_card("x", "y").1, "Connecting to GitHub releases...");
    assert_eq!(
        UpdateStatus::Verifying.status_card("x", "y").1,
        "Validating SHA-256 package checksum integrity..."
    );
}

#[test]
fn status_card_buttons_and_icons() {
    let b = UpdateStatus::Checking.button();
    assert_eq!((b.id, b.label, b.action), ("btn-checking", "Checking...", None));
    let b = available().button();
    assert_eq!((b.label, b.primary, b.action), ("Download Update", true, Some(UpdateAction::Download)));
    let b = UpdateStatus::ReadyToRestart { version: "2".to_string(), changelog_url: None }.button();
    assert_eq!((b.label, b.icon), ("Restart & Install", Some(IconName::Check)));
    assert_eq!(b.action, Some(UpdateAction::InstallAndRestart));
    let b = UpdateStatus::Error("e".to_string()).button();
    assert_eq!((b.id, b.action), ("btn-check-updates", Some(UpdateAction::CheckForUpdates)));
    assert_eq!(UpdateStatus::Idle.hero_icon(), IconName::Rocket);
    assert_eq!(UpdateStatus::Verifying.hero_icon(), IconName::RefreshCw);
    assert_eq!(UpdateStatus::Error("e".to_string()).hero_icon(), IconName::CircleInfo);
    assert_eq!(UpdateStatus::Idle.progress_label(), None);
}

#[test]
fn update_badge_and_release_notes() {
    assert!(!has_update_available(None));
    assert!(!has_update_available(Some(&UpdateStatus::Idle)));
    assert!(has_update_available(Some(&available())));
    assert!(has_update_available(Some(&UpdateStatus::ReadyToRestart {
        version: "2".to_string(),
        changelog_url: None
    })));
    let a = available();
    assert_eq!(a.changelog_url().map(|s| s.as_str()), Some("https://example.invalid/notes"));
    assert_eq!(UpdateStatus::UpToDate.changelog_url(), None);
    assert_eq!(ReleaseChannel::Stable.badge(), "Recommended");
    assert_eq!(ReleaseChannel::Alpha.badge(), "Bleeding Edge");
}
