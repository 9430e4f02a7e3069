use tnotes::export::{export_file_name, export_markdown, note_card_preview, strip_html_tags};
use tnotes::updates::last_checked_label;

#[test]
fn html_is_reduced_to_plain_words() {
    assert_eq!(strip_html_tags("<p>Hello <b>world</b></p>"), "Hello world");
    assert_eq!(strip_html_tags("<p>a&nbsp;&amp;&nbsp;b</p>\n<p>  c  </p>"), "a & b c");
    assert_eq!(strip_html_tags("&lt;tag&gt; &quot;q&quot; it&#39;s"), "<tag> \"q\" it's");
    assert_eq!(strip_html_tags("&amp;lt;"), "<");
    assert_eq!(strip_html_tags("x < y > z"), "x z");
    assert_eq!(strip_html_tags(""), "");
}

#[test]
fn empty_bodies_preview_as_empty_note() {
    assert_eq!(note_card_preview("<p></p>"), "Empty note");
    assert_eq!(note_card_preview("<p> Draft </p>"), "Draft");
}

#[test]
fn export_names_avoid_path_separators() {
    assert_eq!(export_file_name("a/b\\c", "id1"), "a-b-c.md");
    assert_eq!(export_file_name("   ", "note-1"), "note-1.md");
    assert_eq!(export_file_name("Plan", "x"), "Plan.md");
}

#[test]
fn export_markdown_has_front_matter() {
    assert_eq!(export_markdown("T", "n1", "body"), "---\ntitle: T\nid: n1\n---\n\nbody");
}

#[test]
fn last_checked_labels() {
    assert_eq!(last_checked_label(100, None), "Never checked");
    assert_eq!(last_checked_label(100, Some(70)), "Checked just now");
    assert_eq!(last_checked_label(100, Some(200)), "Checked just now");
    assert_eq!(last_checked_label(1000, Some(880)), "Checked 2 minutes ago");
    assert_eq!(last_checked_label(10_000, Some(2_000)), "Checked 2 hours ago");
    assert_eq!(last_checked_label(1_000_000, Some(0)), "Checked 11 days ago");
}
