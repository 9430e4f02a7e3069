//! The updates page: what it says about the updater's state, which button it
//! offers, and whether the sidebar announces an update.
use vstd::prelude::*;
use crate::icons::IconName;
use crate::text::{concat, decimal, push_str, u64_to_decimal};

verus! {

/// The updater's state, as the updates page reads it. Sizes arrive already
/// written in MiB with one decimal, and the download progress as a whole
/// percentage: those numbers are computed from floating-point values
/// outside the library.
pub enum UpdateStatus {
    Idle,
    Checking,
    UpToDate,
    Available { version: String, size_mb: String, changelog_url: Option<String> },
    Downloading { version: String, downloaded_mb: String, total_mb: String, percent: u32 },
    Verifying,
    ReadyToRestart { version: String, changelog_url: Option<String> },
    Error(String),
}

/// What pressing the status card's button asks of the updater.
#[derive(Clone, Copy, Debug, PartialEq, Eq, Structural)]
pub enum UpdateAction {
    CheckForUpdates,
    Download,
    InstallAndRestart,
}

/// The status card's button.
pub struct UpdateButton {
    pub id: &'static str,
    pub label: &'static str,
    pub primary: bool,
    pub icon: Option<IconName>,
    /// `None` while the updater is busy: the button is disabled.
    pub action: Option<UpdateAction>,
}

/// The release streams an installation can follow.
#[derive(Clone, Copy, Debug, PartialEq, Eq, Structural)]
pub enum ReleaseChannel {
    Stable,
    Beta,
    Alpha,
}

impl ReleaseChannel {
    /// The badge beside the channel's name.
    pub fn badge(self) -> (r: &'static str)
        ensures
            self == ReleaseChannel::Stable ==> r@ == "Recommended"@,
            self == ReleaseChannel::Beta ==> r@ == "Preview"@,
            self == ReleaseChannel::Alpha ==> r@ == "Bleeding Edge"@,
    {
        match self {
            ReleaseChannel::Stable => "Recommended",
            ReleaseChannel::Beta => "Preview",
            ReleaseChannel::Alpha => "Bleeding Edge",
        }
    }
}

/// The status card's heading.
pub open spec fn status_title_spec(s: UpdateStatus) -> Seq<char> {
    match s {
        UpdateStatus::Idle => "Up to Date"@,
        UpdateStatus::Checking => "Checking for Updates"@,
        UpdateStatus::UpToDate => "You're Up to Date"@,
        UpdateStatus::Available { .. } => "Update Available"@,
        UpdateStatus::Downloading { .. } => "Downloading Update"@,
        UpdateStatus::Verifying => "Verifying Update"@,
        UpdateStatus::ReadyToRestart { .. } => "Update Ready"@,
        UpdateStatus::Error(_) => "Update Check Failed"@,
    }
}

/// The status card's explanation, given the "last checked" label and the
/// title of the channel followed.
pub open spec fn status_description_spec(
    s: UpdateStatus,
    last_checked: Seq<char>,
    channel: Seq<char>,
) -> Seq<char> {
    match s {
        UpdateStatus::Idle => "TNotes is ready to check for updates. "@ + last_checked + "."@,
        UpdateStatus::Checking => "Connecting to GitHub releases..."@,
        UpdateStatus::UpToDate => "Running the latest release on the "@ + channel + " channel. "@
            + last_checked + "."@,
        UpdateStatus::Available { version, size_mb, .. } => "Version v"@ + version@
            + " is available for download ("@ + size_mb@ + " MB)."@,
        UpdateStatus::Downloading { version, downloaded_mb, total_mb, .. } => "Downloading v"@
            + version@ + " ("@ + downloaded_mb@ + " MB / "@ + total_mb@ + " MB)..."@,
        UpdateStatus::Verifying => "Validating SHA-256 package checksum integrity..."@,
        UpdateStatus::ReadyToRestart { version, .. } => "Version v"@ + version@
            + " has been verified and staged. Restart to complete update."@,
        UpdateStatus::Error(msg) => msg@,
    }
}

/// The icon of the status card.
pub open spec fn hero_icon_spec(s: UpdateStatus) -> IconName {
    match s {
        UpdateStatus::ReadyToRestart { .. } => IconName::Check,
        UpdateStatus::Available { .. } => IconName::Rocket,
        UpdateStatus::Downloading { .. } | UpdateStatus::Verifying => IconName::RefreshCw,
        UpdateStatus::Error(_) => IconName::CircleInfo,
        _ => IconName::Rocket,
    }
}

/// The button has exactly these parts.
pub open spec fn button_is(
    b: UpdateButton,
    id: Seq<char>,
    label: Seq<char>,
    primary: bool,
    icon: Option<IconName>,
    action: Option<UpdateAction>,
) -> bool {
    &&& b.id@ == id
    &&& b.label@ == label
    &&& b.primary == primary
    &&& b.icon == icon
    &&& b.action == action
}

/// The button that the card offers in each state: a disabled one while the
/// updater works, "Download Update" or "Restart & Install" when there is
/// something to act on, and "Check for Updates" otherwise.
pub open spec fn button_spec(s: UpdateStatus, b: UpdateButton) -> bool {
    match s {
        UpdateStatus::Checking => button_is(b, "btn-checking"@, "Checking..."@, false, None, None),
        UpdateStatus::Downloading { .. } => button_is(
            b,
            "btn-downloading"@,
            "Downloading..."@,
            false,
            None,
            None,
        ),
        UpdateStatus::Verifying => button_is(b, "btn-verifying"@, "Verifying..."@, false, None, None),
        UpdateStatus::Available { .. } => button_is(
            b,
            "btn-download-update"@,
            "Download Update"@,
            true,
            Some(IconName::Rocket),
            Some(UpdateAction::Download),
        ),
        UpdateStatus::ReadyToRestart { .. } => button_is(
            b,
            "btn-restart-update"@,
            "Restart & Install"@,
            true,
            Some(IconName::Check),
            Some(UpdateAction::InstallAndRestart),
        ),
        _ => button_is(
            b,
            "btn-check-updates"@,
            "Check for Updates"@,
            false,
            Some(IconName::RefreshCw),
            Some(UpdateAction::CheckForUpdates),
        ),
    }
}

/// A borrowed optional URL is the stored one.
pub open spec fn same_url(r: Option<&String>, stored: Option<String>) -> bool {
    match stored {
        Some(u) => r is Some && *r->0 == u,
        None => r is None,
    }
}

/// There is an update to download or to install.
pub open spec fn offers_update_spec(s: UpdateStatus) -> bool {
    s is Available || s is ReadyToRestart
}

impl UpdateStatus {
    /// The status card's heading, explanation, and whether it reports an
    /// error.
    pub fn status_card(&self, last_checked: &str, channel_title: &str) -> (r: (
        &'static str,
        String,
        bool,
    ))
        ensures
            r.0@ == status_title_spec(*self),
            r.1@ == status_description_spec(*self, last_checked@, channel_title@),
            r.2 == (*self is Error),
    {
        match self {
            UpdateStatus::Idle => {
                let mut d = "TNotes is ready to check for updates. ".to_owned();
                push_str(&mut d, last_checked);
                push_str(&mut d, ".");
                ("Up to Date", d, false)
            },
            UpdateStatus::Checking => (
                "Checking for Updates",
                "Connecting to GitHub releases...".to_owned(),
                false,
            ),
            UpdateStatus::UpToDate => {
                let mut d = "Running the latest release on the ".to_owned();
                push_str(&mut d, channel_title);
                push_str(&mut d, " channel. ");
                push_str(&mut d, last_checked);
                push_str(&mut d, ".");
                ("You're Up to Date", d, false)
            },
            UpdateStatus::Available { version, size_mb, .. } => {
                let mut d = concat("Version v", version.as_str());
                push_str(&mut d, " is available for download (");
                push_str(&mut d, size_mb.as_str());
                push_str(&mut d, " MB).");
                ("Update Available", d, false)
            },
            UpdateStatus::Downloading { version, downloaded_mb, total_mb, .. } => {
                let mut d = concat("Downloading v", version.as_str());
                push_str(&mut d, " (");
                push_str(&mut d, downloaded_mb.as_str());
                push_str(&mut d, " MB / ");
                push_str(&mut d, total_mb.as_str());
                push_str(&mut d, " MB)...");
                ("Downloading Update", d, false)
            },
            UpdateStatus::Verifying => (
                "Verifying Update",
                "Validating SHA-256 package checksum integrity...".to_owned(),
                false,
            ),
            UpdateStatus::ReadyToRestart { version, .. } => {
                let mut d = concat("Version v", version.as_str());
                push_str(&mut d, " has been verified and staged. Restart to complete update.");
                ("Update Ready", d, false)
            },
            UpdateStatus::Error(msg) => ("Update Check Failed", msg.clone(), true),
        }
    }

    /// The icon of the status card.
    pub fn hero_icon(&self) -> (r: IconName)
        ensures
            r == hero_icon_spec(*self),
    {
        match self {
            UpdateStatus::ReadyToRestart { .. } => IconName::Check,
            UpdateStatus::Available { .. } => IconName::Rocket,
            UpdateStatus::Downloading { .. } | UpdateStatus::Verifying => IconName::RefreshCw,
            UpdateStatus::Error(_) => IconName::CircleInfo,
            _ => IconName::Rocket,
        }
    }

    /// The status card's button.
    pub fn button(&self) -> (b: UpdateButton)
        ensures
            button_spec(*self, b),
    {
        match self {
            UpdateStatus::Checking => UpdateButton {
                id: "btn-checking",
                label: "Checking...",
                primary: false,
                icon: None,
                action: None,
            },
            UpdateStatus::Downloading { .. } => UpdateButton {
                id: "btn-downloading",
                label: "Downloading...",
                primary: false,
                icon: None,
                action: None,
            },
            UpdateStatus::Verifying => UpdateButton {
                id: "btn-verifying",
                label: "Verifying...",
                primary: false,
                icon: None,
                action: None,
            },
            UpdateStatus::Available { .. } => UpdateButton {
                id: "btn-download-update",
                label: "Download Update",
                primary: true,
                icon: Some(IconName::Rocket),
                action: Some(UpdateAction::Download),
            },
            UpdateStatus::ReadyToRestart { .. } => UpdateButton {
                id: "btn-restart-update",
                label: "Restart & Install",
                primary: true,
                icon: Some(IconName::Check),
                action: Some(UpdateAction::InstallAndRestart),
            },
            _ => UpdateButton {
                id: "btn-check-updates",
                label: "Check for Updates",
                primary: false,
                icon: Some(IconName::RefreshCw),
                action: Some(UpdateAction::CheckForUpdates),
            },
        }
    }

    /// While downloading: "p% complete".
    pub fn progress_label(&self) -> (r: Option<String>)
        ensures
            match *self {
                UpdateStatus::Downloading { percent, .. } => r is Some && r->0@ == decimal(
                    percent as nat,
                ) + "% complete"@,
                _ => r is None,
            },
    {
        match self {
            UpdateStatus::Downloading { percent, .. } => {
                let mut s = u64_to_decimal(*percent as u64);
                push_str(&mut s, "% complete");
                Some(s)
            },
            _ => None,
        }
    }

    /// The release notes to link to: those of an update that is available or
    /// staged, when the release names them.
    pub fn changelog_url(&self) -> (r: Option<&String>)
        ensures
            match *self {
                UpdateStatus::Available { changelog_url, .. } => same_url(r, changelog_url),
                UpdateStatus::ReadyToRestart { changelog_url, .. } => same_url(r, changelog_url),
                _ => r is None,
            },
    {
        match self {
            UpdateStatus::Available { changelog_url, .. } => changelog_url.as_ref(),
            UpdateStatus::ReadyToRestart { changelog_url, .. } => changelog_url.as_ref(),
            _ => None,
        }
    }

    /// There is an update to download or to install.
    pub fn offers_update(&self) -> (r: bool)
        ensures
            r == offers_update_spec(*self),
    {
        match self {
            UpdateStatus::Available { .. } | UpdateStatus::ReadyToRestart { .. } => true,
            _ => false,
        }
    }
}

/// Whether the sidebar announces an update: only when an updater is attached
/// and it has an update to download or to install.
pub fn has_update_available(status: Option<&UpdateStatus>) -> (r: bool)
    ensures
        r == match status {
            Some(s) => offers_update_spec(*s),
            None => false,
        },
{
    match status {
        Some(s) => s.offers_update(),
        None => false,
    }
}

// ---------------------------------------------------------------------------
// Update checks
// ---------------------------------------------------------------------------

/// The label telling when updates were last checked, given the current time
/// and the time of the last check (seconds since the epoch).
pub open spec fn last_checked_spec(now: u64, last_checked: Option<u64>) -> Seq<char> {
    match last_checked {
        None => "Never checked"@,
        Some(t) => {
            let diff: nat = if now >= t { (now - t) as nat } else { 0 };
            if diff < 60 {
                "Checked just now"@
            } else if diff < 3600 {
                "Checked "@ + decimal(diff / 60) + " minutes ago"@
            } else if diff < 86400 {
                "Checked "@ + decimal(diff / 3600) + " hours ago"@
            } else {
                "Checked "@ + decimal(diff / 86400) + " days ago"@
            }
        },
    }
}

/// The "last checked" label counts whole minutes under an hour, whole hours
/// under a day, and whole days beyond; the count it shows is at least one
/// and never more than the time elapsed in that unit.  Under a minute (or
/// with a check time in the future) it reads "just now"; without a check,
/// "Never checked".
pub proof fn lemma_last_checked_units(now: u64, t: u64)
    ensures
        last_checked_spec(now, None) == "Never checked"@,
        (now < t || now - t < 60) ==> last_checked_spec(now, Some(t)) == "Checked just now"@,
        now >= t && 60 <= now - t < 3600 ==> {
            let n = (now - t) / 60;
            &&& 1 <= n < 60
            &&& n * 60 <= now - t < (n + 1) * 60
            &&& last_checked_spec(now, Some(t)) == "Checked "@ + decimal(n as nat) + " minutes ago"@
        },
        now >= t && 3600 <= now - t < 86400 ==> {
            let n = (now - t) / 3600;
            &&& 1 <= n < 24
            &&& n * 3600 <= now - t < (n + 1) * 3600
            &&& last_checked_spec(now, Some(t)) == "Checked "@ + decimal(n as nat) + " hours ago"@
        },
        now >= t && 86400 <= now - t ==> {
            let n = (now - t) / 86400;
            &&& 1 <= n
            &&& n * 86400 <= now - t < (n + 1) * 86400
            &&& last_checked_spec(now, Some(t)) == "Checked "@ + decimal(n as nat) + " days ago"@
        },
{
}

/// The label telling when updates were last checked.
pub fn last_checked_label(now: u64, last_checked: Option<u64>) -> (r: String)
    ensures
        r@ == last_checked_spec(now, last_checked),
{
    match last_checked {
        None => "Never checked".to_owned(),
        Some(t) => {
            let diff = now.saturating_sub(t);
            if diff < 60 {
                "Checked just now".to_owned()
            } else if diff < 3600 {
                let mut r = "Checked ".to_owned();
                let n = u64_to_decimal(diff / 60);
                push_str(&mut r, n.as_str());
                push_str(&mut r, " minutes ago");
                r
            } else if diff < 86400 {
                let mut r = "Checked ".to_owned();
                let n = u64_to_decimal(diff / 3600);
                push_str(&mut r, n.as_str());
                push_str(&mut r, " hours ago");
                r
            } else {
                let mut r = "Checked ".to_owned();
                let n = u64_to_decimal(diff / 86400);
                push_str(&mut r, n.as_str());
                push_str(&mut r, " days ago");
                r
            }
        },
    }
}

} // verus!
