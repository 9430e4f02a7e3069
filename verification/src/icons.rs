//! Icon names, and the folder icons that a folder's stored `icon` value names.
use vstd::prelude::*;
use crate::text::{
    ascii_lower, ascii_lowered, eq_ascii_nocase, eq_ignore_ascii_case, is_whitespace, trim, trim_end, trim_start,
    trimmed,
};

verus! {

/// The icons that the library's logic picks.
#[derive(Clone, Copy, Debug, PartialEq, Eq, Structural)]
pub enum IconName {
    Folder,
    FolderOpen,
    Briefcase,
    Lightbulb,
    FileText,
    Rocket,
    Target,
    GraduationCap,
    Palette,
    Home,
    Wallet,
    Star,
    Heart,
    Bookmark,
    Code,
    Music,
    Zap,
    ShoppingCart,
    User,
    RefreshCw,
    Database,
    Keyboard,
    CircleInfo,
    Check,
    ChevronRight,
}

/// Number of entries in the folder icon table.
pub const FOLDER_ICON_COUNT: usize = 17;

/// The stored (lower-case) name of the folder icon table's entry `i`.
pub open spec fn option_name(i: int) -> Seq<char> {
    if i == 0 {
        "folder"@
    } else if i == 1 {
        "briefcase"@
    } else if i == 2 {
        "lightbulb"@
    } else if i == 3 {
        "file-text"@
    } else if i == 4 {
        "rocket"@
    } else if i == 5 {
        "target"@
    } else if i == 6 {
        "graduation-cap"@
    } else if i == 7 {
        "palette"@
    } else if i == 8 {
        "home"@
    } else if i == 9 {
        "wallet"@
    } else if i == 10 {
        "star"@
    } else if i == 11 {
        "heart"@
    } else if i == 12 {
        "bookmark"@
    } else if i == 13 {
        "code"@
    } else if i == 14 {
        "music"@
    } else if i == 15 {
        "zap"@
    } else {
        "shopping-cart"@
    }
}

/// The icon of the folder icon table's entry `i`.
pub open spec fn option_icon(i: int) -> IconName {
    if i == 0 {
        IconName::Folder
    } else if i == 1 {
        IconName::Briefcase
    } else if i == 2 {
        IconName::Lightbulb
    } else if i == 3 {
        IconName::FileText
    } else if i == 4 {
        IconName::Rocket
    } else if i == 5 {
        IconName::Target
    } else if i == 6 {
        IconName::GraduationCap
    } else if i == 7 {
        IconName::Palette
    } else if i == 8 {
        IconName::Home
    } else if i == 9 {
        IconName::Wallet
    } else if i == 10 {
        IconName::Star
    } else if i == 11 {
        IconName::Heart
    } else if i == 12 {
        IconName::Bookmark
    } else if i == 13 {
        IconName::Code
    } else if i == 14 {
        IconName::Music
    } else if i == 15 {
        IconName::Zap
    } else {
        IconName::ShoppingCart
    }
}

/// Entry `i` of the folder icon table: its stored name and its icon.
pub fn folder_icon_option(i: usize) -> (r: (&'static str, IconName))
    requires
        i < FOLDER_ICON_COUNT,
    ensures
        r.0@ == option_name(i as int),
        r.1 == option_icon(i as int),
{
    match i {
        0 => ("folder", IconName::Folder),
        1 => ("briefcase", IconName::Briefcase),
        2 => ("lightbulb", IconName::Lightbulb),
        3 => ("file-text", IconName::FileText),
        4 => ("rocket", IconName::Rocket),
        5 => ("target", IconName::Target),
        6 => ("graduation-cap", IconName::GraduationCap),
        7 => ("palette", IconName::Palette),
        8 => ("home", IconName::Home),
        9 => ("wallet", IconName::Wallet),
        10 => ("star", IconName::Star),
        11 => ("heart", IconName::Heart),
        12 => ("bookmark", IconName::Bookmark),
        13 => ("code", IconName::Code),
        14 => ("music", IconName::Music),
        15 => ("zap", IconName::Zap),
        _ => ("shopping-cart", IconName::ShoppingCart),
    }
}

/// The icon is one of the table's (then `k` is its entry).
pub open spec fn table_index(icon: IconName, k: int) -> bool {
    0 <= k < FOLDER_ICON_COUNT && option_icon(k) == icon
}

/// The stored name of an icon: its table name, or "folder" for an icon that
/// the table does not hold.
pub open spec fn icon_name_spec(icon: IconName) -> Seq<char> {
    if exists|k: int| table_index(icon, k) {
        option_name(choose|k: int| table_index(icon, k))
    } else {
        "folder"@
    }
}

/// The table's entry that a stored name selects: the first whose name equals
/// the trimmed stored name up to ASCII case.
pub open spec fn icon_from_name_spec(name: Seq<char>) -> Option<IconName> {
    if exists|k: int| 0 <= k < FOLDER_ICON_COUNT && eq_ascii_nocase(option_name(k), trimmed(name)) {
        let k = choose|k: int|
            0 <= k < FOLDER_ICON_COUNT && eq_ascii_nocase(option_name(k), trimmed(name)) && forall|
                j: int,
            |
                0 <= j < k ==> !eq_ascii_nocase(option_name(j), trimmed(name));
        Some(option_icon(k))
    } else {
        None
    }
}

proof fn lemma_icons_distinct(i: int, k: int)
    requires
        0 <= i < FOLDER_ICON_COUNT,
        0 <= k < FOLDER_ICON_COUNT,
        option_icon(i) == option_icon(k),
    ensures
        i == k,
{
}

proof fn lemma_option_name_trimmed(k: int)
    requires
        0 <= k < FOLDER_ICON_COUNT,
    ensures
        trimmed(option_name(k)) == option_name(k),
{
    reveal_strlit("folder");
    reveal_strlit("briefcase");
    reveal_strlit("lightbulb");
    reveal_strlit("file-text");
    reveal_strlit("rocket");
    reveal_strlit("target");
    reveal_strlit("graduation-cap");
    reveal_strlit("palette");
    reveal_strlit("home");
    reveal_strlit("wallet");
    reveal_strlit("star");
    reveal_strlit("heart");
    reveal_strlit("bookmark");
    reveal_strlit("code");
    reveal_strlit("music");
    reveal_strlit("zap");
    reveal_strlit("shopping-cart");
    let s = option_name(k);
    assert(s.len() > 0 && !is_whitespace(s[0]));
    assert(trim_start(s) == s);
    assert(!is_whitespace(s.last()));
    assert(trim_end(s) == s);
}

proof fn lemma_option_names_distinct(j: int, k: int)
    requires
        0 <= j < FOLDER_ICON_COUNT,
        0 <= k < FOLDER_ICON_COUNT,
        j != k,
    ensures
        !eq_ascii_nocase(option_name(j), option_name(k)),
{
    reveal_strlit("folder");
    reveal_strlit("briefcase");
    reveal_strlit("lightbulb");
    reveal_strlit("file-text");
    reveal_strlit("rocket");
    reveal_strlit("target");
    reveal_strlit("graduation-cap");
    reveal_strlit("palette");
    reveal_strlit("home");
    reveal_strlit("wallet");
    reveal_strlit("star");
    reveal_strlit("heart");
    reveal_strlit("bookmark");
    reveal_strlit("code");
    reveal_strlit("music");
    reveal_strlit("zap");
    reveal_strlit("shopping-cart");
    let a = option_name(j);
    let b = option_name(k);
    if a.len() == b.len() {
        assert(ascii_lower(a[0]) != ascii_lower(b[0]));
    }
}

/// Naming a table icon and reading the name back gives the icon again.
pub proof fn lemma_icon_name_roundtrip(icon: IconName, k: int)
    requires
        table_index(icon, k),
    ensures
        icon_from_name_spec(icon_name_spec(icon)) == Some(icon),
{
    lemma_option_name_trimmed(k);
    let kk = choose|x: int| table_index(icon, x);
    lemma_icons_distinct(kk, k);
    let name = icon_name_spec(icon);
    assert(name == option_name(k));
    assert(eq_ascii_nocase(option_name(k), trimmed(name)));
    assert forall|j: int| 0 <= j < FOLDER_ICON_COUNT && j != k implies !eq_ascii_nocase(
        option_name(j),
        trimmed(name),
    ) by {
        lemma_option_names_distinct(j, k);
    };
    let c = choose|c: int|
        0 <= c < FOLDER_ICON_COUNT && eq_ascii_nocase(option_name(c), trimmed(name)) && forall|
            j: int,
        |
            0 <= j < c ==> !eq_ascii_nocase(option_name(j), trimmed(name));
    assert(c == k);
}

/// A stored name that selects an icon equals that icon's name up to ASCII
/// case and surrounding whitespace.
pub proof fn lemma_name_selects_its_icon(name: Seq<char>)
    requires
        icon_from_name_spec(name) is Some,
    ensures
        eq_ascii_nocase(icon_name_spec(icon_from_name_spec(name)->0), trimmed(name)),
{
    let c = choose|c: int|
        0 <= c < FOLDER_ICON_COUNT && eq_ascii_nocase(option_name(c), trimmed(name)) && forall|
            j: int,
        |
            0 <= j < c ==> !eq_ascii_nocase(option_name(j), trimmed(name));
    let icon = option_icon(c);
    assert(table_index(icon, c));
    let kk = choose|x: int| table_index(icon, x);
    lemma_icons_distinct(kk, c);
}

proof fn lemma_ascii_lower_char(c: char)
    ensures
        ascii_lower(ascii_lower(c)) == ascii_lower(c),
        is_whitespace(ascii_lower(c)) == is_whitespace(c),
{
    if 'A' <= c && c <= 'Z' {
        assert((c as u32) + 32 <= 0x7a);
        assert(ascii_lower(c) as u32 == (c as u32) + 32);
    }
}

/// Neither end of the sequence is whitespace (or it is empty).
spec fn no_outer_space(u: Seq<char>) -> bool {
    u.len() == 0 || (!is_whitespace(u[0]) && !is_whitespace(u.last()))
}

proof fn lemma_trim_start_front(s: Seq<char>)
    ensures
        trim_start(s).len() == 0 || !is_whitespace(trim_start(s)[0]),
    decreases s.len(),
{
    if s.len() > 0 && is_whitespace(s[0]) {
        lemma_trim_start_front(s.drop_first());
    }
}

proof fn lemma_trim_end_prefix(s: Seq<char>)
    ensures
        trim_end(s).len() <= s.len(),
        trim_end(s) == s.take(trim_end(s).len() as int),
        trim_end(s).len() == 0 || !is_whitespace(trim_end(s).last()),
    decreases s.len(),
{
    if s.len() > 0 && is_whitespace(s.last()) {
        lemma_trim_end_prefix(s.drop_last());
        assert(s.drop_last().take(trim_end(s).len() as int) =~= s.take(trim_end(s).len() as int));
    } else {
        assert(s.take(s.len() as int) =~= s);
    }
}

proof fn lemma_trimmed_no_outer_space(s: Seq<char>)
    ensures
        no_outer_space(trimmed(s)),
{
    lemma_trim_start_front(s);
    lemma_trim_end_prefix(trim_start(s));
    let e = trimmed(s);
    if e.len() > 0 {
        assert(e[0] == trim_start(s).take(e.len() as int)[0]);
    }
}

proof fn lemma_trimmed_keeps(u: Seq<char>)
    requires
        no_outer_space(u),
    ensures
        trimmed(u) == u,
{
}

/// The table entry `k` matches the trimmed name up to ASCII case.
spec fn entry_matches(name: Seq<char>, k: int) -> bool {
    0 <= k < FOLDER_ICON_COUNT && eq_ascii_nocase(option_name(k), trimmed(name))
}

proof fn lemma_first_match_from(name: Seq<char>, j: int, k0: int)
    requires
        0 <= j <= k0,
        entry_matches(name, k0),
        forall|i: int| 0 <= i < j ==> !entry_matches(name, i),
    ensures
        exists|k: int|
            0 <= k < FOLDER_ICON_COUNT && eq_ascii_nocase(option_name(k), trimmed(name)) && forall|
                i: int,
            |
                0 <= i < k ==> !eq_ascii_nocase(option_name(i), trimmed(name)),
    decreases k0 - j,
{
    if entry_matches(name, j) {
        assert forall|i: int| 0 <= i < j implies !eq_ascii_nocase(option_name(i), trimmed(name)) by {
            assert(!entry_matches(name, i));
        };
    } else {
        lemma_first_match_from(name, j + 1, k0);
    }
}

proof fn lemma_first_match_exists(name: Seq<char>)
    requires
        exists|k: int| 0 <= k < FOLDER_ICON_COUNT && eq_ascii_nocase(option_name(k), trimmed(name)),
    ensures
        exists|k: int|
            0 <= k < FOLDER_ICON_COUNT && eq_ascii_nocase(option_name(k), trimmed(name)) && forall|
                i: int,
            |
                0 <= i < k ==> !eq_ascii_nocase(option_name(i), trimmed(name)),
{
    let k0 = choose|k: int| 0 <= k < FOLDER_ICON_COUNT && eq_ascii_nocase(option_name(k), trimmed(name));
    assert(entry_matches(name, k0));
    lemma_first_match_from(name, 0, k0);
}

/// Trimming a stored name and lower-casing its ASCII letters before the
/// lookup selects the same icon (or none) as the name itself.
pub proof fn lemma_icon_lookup_normalizes(name: Seq<char>)
    ensures
        icon_from_name_spec(name) == icon_from_name_spec(ascii_lowered(trimmed(name))),
{
    let t = trimmed(name);
    let l = ascii_lowered(t);
    lemma_trimmed_no_outer_space(name);
    if l.len() > 0 {
        lemma_ascii_lower_char(t[0]);
        lemma_ascii_lower_char(t.last());
        assert(l.last() == ascii_lower(t.last()));
    }
    lemma_trimmed_keeps(l);
    assert forall|k: int| eq_ascii_nocase(option_name(k), trimmed(l)) == eq_ascii_nocase(
        option_name(k),
        t,
    ) by {
        assert forall|i: int| 0 <= i < l.len() implies ascii_lower(#[trigger] l[i]) == ascii_lower(
            t[i],
        ) by {
            lemma_ascii_lower_char(t[i]);
        };
    };
    if exists|k: int| 0 <= k < FOLDER_ICON_COUNT && eq_ascii_nocase(option_name(k), trimmed(name)) {
        let k1 = choose|k: int|
            0 <= k < FOLDER_ICON_COUNT && eq_ascii_nocase(option_name(k), trimmed(name)) && forall|
                j: int,
            |
                0 <= j < k ==> !eq_ascii_nocase(option_name(j), trimmed(name));
        let k2 = choose|k: int|
            0 <= k < FOLDER_ICON_COUNT && eq_ascii_nocase(option_name(k), trimmed(l)) && forall|
                j: int,
            |
                0 <= j < k ==> !eq_ascii_nocase(option_name(j), trimmed(l));
        lemma_first_match_exists(name);
        lemma_first_match_exists(l);
        if k1 < k2 {
            assert(!eq_ascii_nocase(option_name(k1), trimmed(l)));
        } else if k2 < k1 {
            assert(!eq_ascii_nocase(option_name(k2), trimmed(name)));
        }
    } else {
        assert forall|k: int| 0 <= k < FOLDER_ICON_COUNT implies !eq_ascii_nocase(
            option_name(k),
            trimmed(l),
        ) by {
            assert(!eq_ascii_nocase(option_name(k), trimmed(name)));
        };
    }
}

/// The stored name of an icon.
pub fn folder_icon_name(icon: IconName) -> (r: &'static str)
    ensures
        r@ == icon_name_spec(icon),
{
    let mut i: usize = 0;
    while i < FOLDER_ICON_COUNT
        invariant
            i <= FOLDER_ICON_COUNT,
            forall|j: int| 0 <= j < i ==> option_icon(j) != icon,
        decreases FOLDER_ICON_COUNT - i,
    {
        let (name, candidate) = folder_icon_option(i);
        if candidate == icon {
            proof {
                assert(table_index(icon, i as int));
                let k = choose|k: int| table_index(icon, k);
                lemma_icons_distinct(k, i as int);
            }
            return name;
        }
        i += 1;
    }
    "folder"
}

/// The icon that a stored name selects, if any.
pub fn folder_icon_from_name(name: &str) -> (r: Option<IconName>)
    ensures
        r == icon_from_name_spec(name@),
{
    let key = trim(name);
    let mut i: usize = 0;
    while i < FOLDER_ICON_COUNT
        invariant
            i <= FOLDER_ICON_COUNT,
            key@ == trimmed(name@),
            forall|j: int| 0 <= j < i ==> !eq_ascii_nocase(option_name(j), key@),
        decreases FOLDER_ICON_COUNT - i,
    {
        let (candidate, icon) = folder_icon_option(i);
        if eq_ignore_ascii_case(candidate, key.as_str()) {
            proof {
                let k = choose|k: int|
                    0 <= k < FOLDER_ICON_COUNT && eq_ascii_nocase(option_name(k), trimmed(name@))
                        && forall|j: int|
                        0 <= j < k ==> !eq_ascii_nocase(option_name(j), trimmed(name@));
                assert(0 <= k < FOLDER_ICON_COUNT && eq_ascii_nocase(option_name(k), trimmed(name@))
                    && forall|j: int|
                    0 <= j < k ==> !eq_ascii_nocase(option_name(j), trimmed(name@))) by {
                    assert(forall|j: int|
                        0 <= j < i ==> !eq_ascii_nocase(option_name(j), trimmed(name@)));
                }
                assert(k == i);
            }
            return Some(icon);
        }
        i += 1;
    }
    None
}

/// The icon to draw for a folder: the one its stored name selects, else the
/// open or closed folder glyph.
pub fn folder_icon_for(stored: &str, expanded: bool) -> (r: IconName)
    ensures
        r == match icon_from_name_spec(stored@) {
            Some(icon) => icon,
            None => if expanded {
                IconName::FolderOpen
            } else {
                IconName::Folder
            },
        },
{
    match folder_icon_from_name(stored) {
        Some(icon) => icon,
        None => if expanded {
            IconName::FolderOpen
        } else {
            IconName::Folder
        },
    }
}

} // verus!
