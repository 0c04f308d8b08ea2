//! The name of the desktop's file manager, for labels: fixed on Windows and
//! macOS, and on Linux told by the desktop name or by the running
//! processes.
use vstd::prelude::*;
use vstd::string::*;
use crate::selection::Platform;

verus! {

/// The lower-case form of a text, as `str::to_lowercase` gives it.
pub uninterp spec fn lower_of(s: Seq<char>) -> Seq<char>;

/// Relies on str::to_lowercase: Unicode's lower-case mapping, which
/// depends on the characters alone.
#[verifier::external_body]
fn lowercase(s: &str) -> (r: String)
    ensures
        r@ == lower_of(s@),
{
    s.to_lowercase()
}

/// `needle` occurs in `text`.
pub open spec fn occurs_in(text: Seq<char>, needle: Seq<char>) -> bool {
    exists|i: int|
        0 <= i && i + needle.len() <= text.len() && #[trigger] text.subrange(i, i + needle.len())
            == needle
}

/// The name paired with the first needle of `table` that occurs in `text`.
pub open spec fn first_match(table: Seq<(Seq<char>, Seq<char>)>, text: Seq<char>) -> Option<
    Seq<char>,
>
    decreases table.len(),
{
    if table.len() == 0 {
        None
    } else if occurs_in(text, table[0].0) {
        Some(table[0].1)
    } else {
        first_match(table.drop_first(), text)
    }
}

pub open spec fn pair_views(t: Seq<(&str, &str)>) -> Seq<(Seq<char>, Seq<char>)> {
    t.map_values(|p: (&str, &str)| (p.0@, p.1@))
}

/// Desktop names and the file manager each ships.
pub open spec fn desktop_table() -> Seq<(Seq<char>, Seq<char>)> {
    seq![
        ("kde"@, "Dolphin"@),
        ("plasma"@, "Dolphin"@),
        ("gnome"@, "GNOME Files"@),
        ("xfce"@, "Thunar"@),
        ("lxqt"@, "PCManFM-Qt"@),
        ("lxde"@, "PCManFM"@),
        ("cinnamon"@, "Nemo"@),
        ("pantheon"@, "Pantheon Files"@),
        ("mate"@, "Caja"@),
    ]
}

/// Process names of file managers.
pub open spec fn process_table() -> Seq<(Seq<char>, Seq<char>)> {
    seq![
        ("dolphin"@, "Dolphin"@),
        ("nautilus"@, "GNOME Files"@),
        ("nemo"@, "Nemo"@),
        ("thunar"@, "Thunar"@),
        ("pcmanfm-qt"@, "PCManFM-Qt"@),
        ("pcmanfm"@, "PCManFM"@),
        ("konqueror"@, "Konqueror"@),
        ("caja"@, "Caja"@),
    ]
}

fn desktop_pairs() -> (r: Vec<(&'static str, &'static str)>)
    ensures
        pair_views(r@) == desktop_table(),
{
    let r = vec![
        ("kde", "Dolphin"),
        ("plasma", "Dolphin"),
        ("gnome", "GNOME Files"),
        ("xfce", "Thunar"),
        ("lxqt", "PCManFM-Qt"),
        ("lxde", "PCManFM"),
        ("cinnamon", "Nemo"),
        ("pantheon", "Pantheon Files"),
        ("mate", "Caja"),
    ];
    assert(pair_views(r@) =~= desktop_table());
    r
}

fn process_pairs() -> (r: Vec<(&'static str, &'static str)>)
    ensures
        pair_views(r@) == process_table(),
{
    let r = vec![
        ("dolphin", "Dolphin"),
        ("nautilus", "GNOME Files"),
        ("nemo", "Nemo"),
        ("thunar", "Thunar"),
        ("pcmanfm-qt", "PCManFM-Qt"),
        ("pcmanfm", "PCManFM"),
        ("konqueror", "Konqueror"),
        ("caja", "Caja"),
    ];
    assert(pair_views(r@) =~= process_table());
    r
}

fn matches_at(text: &str, needle: &str, i: usize, n: usize, m: usize) -> (r: bool)
    requires
        n == text@.len(),
        m == needle@.len(),
        i + m <= n,
    ensures
        r == (text@.subrange(i as int, i + m) == needle@),
{
    let mut k: usize = 0;
    while k < m
        invariant
            n == text@.len(),
            m == needle@.len(),
            i + m <= n,
            0 <= k <= m,
            forall|j: int| 0 <= j < k ==> text@[i + j] == #[trigger] needle@[j],
        decreases m - k,
    {
        if text.get_char(i + k) != needle.get_char(k) {
            assert(text@.subrange(i as int, i + m)[k as int] != needle@[k as int]);
            return false;
        }
        k = k + 1;
    }
    assert(text@.subrange(i as int, i + m) =~= needle@);
    true
}

/// Whether `needle` occurs in `text`.
pub fn str_contains(text: &str, needle: &str) -> (r: bool)
    ensures
        r == occurs_in(text@, needle@),
{
    let n = text.unicode_len();
    let m = needle.unicode_len();
    if m > n {
        return false;
    }
    let last = n - m;
    let mut i: usize = 0;
    loop
        invariant
            n == text@.len(),
            m == needle@.len(),
            last == n - m,
            0 <= i <= last,
            forall|j: int| 0 <= j < i ==> #[trigger] text@.subrange(j, j + m) != needle@,
        decreases last - i,
    {
        if matches_at(text, needle, i, n, m) {
            return true;
        }
        if i == last {
            proof {
                if occurs_in(text@, needle@) {
                    let j = choose|j: int|
                        0 <= j && j + m <= n && #[trigger] text@.subrange(j, j + m) == needle@;
                    assert(j <= i);
                }
            }
            return false;
        }
        i = i + 1;
    }
}

fn first_in(table: &Vec<(&'static str, &'static str)>, text: &str) -> (r: Option<String>)
    ensures
        match first_match(pair_views(table@), text@) {
            Some(name) => r is Some && r->0@ == name,
            None => r is None,
        },
{
    let mut i: usize = 0;
    assert(pair_views(table@).subrange(0, table@.len() as int) =~= pair_views(table@));
    while i < table.len()
        invariant
            0 <= i <= table@.len(),
            first_match(pair_views(table@), text@) == first_match(
                pair_views(table@).subrange(i as int, table@.len() as int),
                text@,
            ),
        decreases table@.len() - i,
    {
        let ghost rest = pair_views(table@).subrange(i as int, table@.len() as int);
        let (needle, name) = table[i];
        assert(rest[0] == (needle@, name@));
        if str_contains(text, needle) {
            return Some(name.to_string());
        }
        assert(rest.drop_first() =~= pair_views(table@).subrange(i + 1, table@.len() as int));
        i = i + 1;
    }
    None
}

/// The file manager that the lower-case desktop name `hint` points to.
pub fn desktop_file_manager(hint: &str) -> (r: Option<String>)
    ensures
        match first_match(desktop_table(), hint@) {
            Some(name) => r is Some && r->0@ == name,
            None => r is None,
        },
{
    first_in(&desktop_pairs(), hint)
}

/// The file manager found among the lower-case process names `processes`.
pub fn process_file_manager(processes: &str) -> (r: Option<String>)
    ensures
        match first_match(process_table(), processes@) {
            Some(name) => r is Some && r->0@ == name,
            None => r is None,
        },
{
    first_in(&process_pairs(), processes)
}

/// The label for Linux: the file manager the lower-cased desktop name
/// points to, else one found among the lower-cased process names, else the
/// generic label.
pub open spec fn linux_label(desktop: Seq<char>, processes: Option<Seq<char>>) -> Seq<char> {
    match first_match(desktop_table(), lower_of(desktop)) {
        Some(name) => name,
        None => match processes {
            Some(p) => match first_match(process_table(), lower_of(p)) {
                Some(name) => name,
                None => "File Manager"@,
            },
            None => "File Manager"@,
        },
    }
}

/// The Linux file manager: the one the desktop name points to, else one
/// found among the running processes (when they could be listed), else
/// the generic label. Both texts are compared in lower case.
pub fn linux_file_manager(desktop: &str, processes: Option<&str>) -> (r: String)
    ensures
        r@ == linux_label(
            desktop@,
            match processes {
                Some(p) => Some(p@),
                None => None,
            },
        ),
{
    let d = lowercase(desktop);
    if let Some(name) = desktop_file_manager(d.as_str()) {
        return name;
    }
    if let Some(p) = processes {
        let lp = lowercase(p);
        if let Some(name) = process_file_manager(lp.as_str()) {
            return name;
        }
    }
    "File Manager".to_string()
}

/// Whether the label needs the list of running processes: only on Linux,
/// and only when the desktop name points to no file manager.
pub fn needs_process_list(platform: Platform, desktop: &str) -> (r: bool)
    ensures
        r == (platform == Platform::Linux && first_match(desktop_table(), lower_of(desktop@))
            is None),
{
    match platform {
        Platform::Linux => {
            let d = lowercase(desktop);
            desktop_file_manager(d.as_str()).is_none()
        },
        _ => false,
    }
}

/// The name of the platform's file manager.
pub fn file_manager_name(platform: Platform, desktop: &str, processes: Option<&str>) -> (r: String)
    ensures
        platform == Platform::MacOs ==> r@ == "Finder"@,
        platform == Platform::Windows ==> r@ == "File Explorer"@,
        platform == Platform::Other ==> r@ == "File Manager"@,
        platform == Platform::Linux ==> r@ == linux_label(
            desktop@,
            match processes {
                Some(p) => Some(p@),
                None => None,
            },
        ),
{
    match platform {
        Platform::MacOs => "Finder".to_string(),
        Platform::Windows => "File Explorer".to_string(),
        Platform::Linux => linux_file_manager(desktop, processes),
        Platform::Other => "File Manager".to_string(),
    }
}

} // verus!
