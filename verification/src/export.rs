//! Text that the views derive from notes: plain-text previews of HTML
//! bodies and Markdown export files.
use vstd::prelude::*;
use crate::text::{chars_of, collapse_whitespace, concat, join_with, push_str, replace_all, replace_chars, string_from, trim, trimmed, words};

verus! {

// ---------------------------------------------------------------------------
// HTML to plain text
// ---------------------------------------------------------------------------

/// The characters of `s` outside tags, with whether the scan ends inside a
/// tag: '<' opens a tag and '>' closes one, both dropped.
pub open spec fn outside_tags(s: Seq<char>) -> (Seq<char>, bool)
    decreases s.len(),
{
    if s.len() == 0 {
        (Seq::empty(), false)
    } else {
        let (out, inside) = outside_tags(s.drop_last());
        let c = s.last();
        if c == '<' {
            (out, true)
        } else if c == '>' {
            (out, false)
        } else if !inside {
            (out.push(c), inside)
        } else {
            (out, inside)
        }
    }
}

/// The sequence holds no '<' and no '>'.
pub open spec fn tag_free(s: Seq<char>) -> bool {
    forall|i: int| 0 <= i < s.len() ==> #[trigger] s[i] != '<' && s[i] != '>'
}

proof fn lemma_outside_tags_append_text(s: Seq<char>, u: Seq<char>)
    requires
        !outside_tags(s).1,
        tag_free(u),
    ensures
        outside_tags(s + u) == (outside_tags(s).0 + u, false),
    decreases u.len(),
{
    if u.len() > 0 {
        lemma_outside_tags_append_text(s, u.drop_last());
        assert((s + u).drop_last() =~= s + u.drop_last());
        assert((s + u).last() == u.last());
        assert(outside_tags(s).0 + u.drop_last().push(u.last()) =~= outside_tags(s).0 + u);
    } else {
        assert(s + u =~= s);
    }
}

proof fn lemma_outside_tags_inside(s: Seq<char>, t: Seq<char>)
    requires
        forall|i: int| 0 <= i < t.len() ==> #[trigger] t[i] != '>',
    ensures
        outside_tags(s + seq!['<'] + t) == (outside_tags(s).0, true),
    decreases t.len(),
{
    if t.len() > 0 {
        lemma_outside_tags_inside(s, t.drop_last());
        assert((s + seq!['<'] + t).drop_last() =~= s + seq!['<'] + t.drop_last());
        assert((s + seq!['<'] + t).last() == t.last());
    } else {
        assert(s + seq!['<'] + t =~= s.push('<'));
        assert(s.push('<').drop_last() =~= s);
    }
}

/// Text without tags passes unchanged.
pub proof fn lemma_plain_text_kept(s: Seq<char>)
    requires
        tag_free(s),
    ensures
        outside_tags(s).0 == s,
{
    lemma_outside_tags_append_text(Seq::empty(), s);
    assert(Seq::<char>::empty() + s =~= s);
}

/// A tag between two runs of text is dropped and adds nothing: the text
/// before it and the text after it are kept, side by side.
pub proof fn lemma_tag_dropped(a: Seq<char>, t: Seq<char>, b: Seq<char>)
    requires
        tag_free(a),
        tag_free(b),
        forall|i: int| 0 <= i < t.len() ==> #[trigger] t[i] != '>',
    ensures
        outside_tags(a + seq!['<'] + t + seq!['>'] + b).0 == a + b,
{
    lemma_plain_text_kept(a);
    lemma_outside_tags_append_text(Seq::empty(), a);
    assert(Seq::<char>::empty() + a =~= a);
    lemma_outside_tags_inside(a, t);
    let x = a + seq!['<'] + t;
    assert((x + seq!['>']).drop_last() =~= x);
    assert(outside_tags(x + seq!['>']) == (a, false));
    lemma_outside_tags_append_text(x + seq!['>'], b);
}

/// The plain text of an HTML fragment does not change when a tag is taken
/// out from between two runs of text: dropping a tag neither splits nor
/// joins words.
pub proof fn lemma_preview_ignores_tags(a: Seq<char>, t: Seq<char>, b: Seq<char>)
    requires
        tag_free(a),
        tag_free(b),
        forall|i: int| 0 <= i < t.len() ==> #[trigger] t[i] != '>',
    ensures
        strip_html_spec(a + seq!['<'] + t + seq!['>'] + b) == strip_html_spec(a + b),
{
    lemma_tag_dropped(a, t, b);
    lemma_plain_text_kept(a + b);
}

/// The six entities that a preview decodes, in the order they are decoded.
pub open spec fn decode_entities(s: Seq<char>) -> Seq<char> {
    replace_all(
        replace_all(
            replace_all(
                replace_all(
                    replace_all(replace_all(s, "&nbsp;"@, " "@), "&amp;"@, "&"@),
                    "&lt;"@,
                    "<"@,
                ),
                "&gt;"@,
                ">"@,
            ),
            "&quot;"@,
            "\""@,
        ),
        "&#39;"@,
        "'"@,
    )
}

/// Plain text of an HTML fragment: tags dropped, entities decoded, and the
/// words joined by single spaces.
pub open spec fn strip_html_spec(html: Seq<char>) -> Seq<char> {
    join_with(words(decode_entities(outside_tags(html).0)), " "@)
}

fn decode_one(s: Vec<char>, pat: &str, rep: &str) -> (r: Vec<char>)
    requires
        pat@.len() > 0,
    ensures
        r@ == replace_all(s@, pat@, rep@),
{
    let p = chars_of(pat);
    let q = chars_of(rep);
    replace_chars(&s, &p, &q)
}

/// The plain text of an HTML fragment.
pub fn strip_html_tags(html: &str) -> (r: String)
    ensures
        r@ == strip_html_spec(html@),
{
    let v = chars_of(html);
    let mut out: Vec<char> = Vec::new();
    let mut inside_tag = false;
    let mut i: usize = 0;
    while i < v.len()
        invariant
            i <= v.len(),
            v@ == html@,
            (out@, inside_tag) == outside_tags(v@.take(i as int)),
        decreases v.len() - i,
    {
        assert(v@.take(i + 1).drop_last() =~= v@.take(i as int));
        let c = v[i];
        if c == '<' {
            inside_tag = true;
        } else if c == '>' {
            inside_tag = false;
        } else if !inside_tag {
            out.push(c);
        }
        i += 1;
    }
    assert(v@.take(v.len() as int) =~= v@);
    proof {
        reveal_strlit("&nbsp;");
        reveal_strlit("&amp;");
        reveal_strlit("&lt;");
        reveal_strlit("&gt;");
        reveal_strlit("&quot;");
        reveal_strlit("&#39;");
    }
    let d = decode_one(out, "&nbsp;", " ");
    let d = decode_one(d, "&amp;", "&");
    let d = decode_one(d, "&lt;", "<");
    let d = decode_one(d, "&gt;", ">");
    let d = decode_one(d, "&quot;", "\"");
    let d = decode_one(d, "&#39;", "'");
    collapse_whitespace(&d)
}

/// The text a note card shows under the title: the body's plain text, or
/// "Empty note" when there is none.
pub fn note_card_preview(body: &str) -> (r: String)
    ensures
        strip_html_spec(body@).len() > 0 ==> r@ == strip_html_spec(body@),
        strip_html_spec(body@).len() == 0 ==> r@ == "Empty note"@,
{
    let snippet = strip_html_tags(body);
    if snippet.as_str().is_empty() {
        "Empty note".to_owned()
    } else {
        snippet
    }
}

// ---------------------------------------------------------------------------
// Markdown export
// ---------------------------------------------------------------------------

/// A title made safe as a file name: '/' and '\' become '-'.
pub open spec fn safe_title(title: Seq<char>) -> Seq<char> {
    title.map_values(|c: char| if c == '/' || c == '\\' { '-' } else { c })
}

/// The file a note is exported to: its safe title with ".md", or its id with
/// ".md" when the title is blank.
pub open spec fn export_file_name_spec(title: Seq<char>, id: Seq<char>) -> Seq<char> {
    if trimmed(safe_title(title)).len() == 0 {
        id + ".md"@
    } else {
        safe_title(title) + ".md"@
    }
}

/// The file name a note is exported to.
pub fn export_file_name(title: &str, id: &str) -> (r: String)
    ensures
        r@ == export_file_name_spec(title@, id@),
{
    let v = chars_of(title);
    let mut safe: Vec<char> = Vec::new();
    let mut i: usize = 0;
    while i < v.len()
        invariant
            i <= v.len(),
            v@ == title@,
            safe@ == safe_title(v@.take(i as int)),
        decreases v.len() - i,
    {
        let c = v[i];
        if c == '/' || c == '\\' {
            safe.push('-');
        } else {
            safe.push(c);
        }
        assert(safe@ =~= safe_title(v@.take(i + 1)));
        i += 1;
    }
    assert(v@.take(v.len() as int) =~= v@);
    let safe_title_string = string_from(&safe, 0, safe.len());
    assert(safe@.subrange(0, safe.len() as int) =~= safe@);
    let t = trim(safe_title_string.as_str());
    if t.as_str().is_empty() {
        concat(id, ".md")
    } else {
        concat(safe_title_string.as_str(), ".md")
    }
}

/// The exported Markdown of a note: front matter with title and id, then the
/// note's text.
pub open spec fn export_markdown_spec(title: Seq<char>, id: Seq<char>, text: Seq<char>) -> Seq<
    char,
> {
    "---\ntitle: "@ + title + "\nid: "@ + id + "\n---\n\n"@ + text
}

/// The exported Markdown of a note.
pub fn export_markdown(title: &str, id: &str, text: &str) -> (r: String)
    ensures
        r@ == export_markdown_spec(title@, id@, text@),
{
    let mut r = concat("---\ntitle: ", title);
    push_str(&mut r, "\nid: ");
    push_str(&mut r, id);
    push_str(&mut r, "\n---\n\n");
    push_str(&mut r, text);
    r
}

} // verus!
