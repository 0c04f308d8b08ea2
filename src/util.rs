//! Small file and timing helpers of the media tools.
use vstd::prelude::*;
use vstd::string::*;
use crate::text::{ascii_lower, eq_ignore_ascii_case, lower_code, str_eq_ignore_ascii_case};
use crate::selection::string_views;
use crate::settings::{FfmpegSettings, MetadataSettings};

verus! {

/// A file's modification time: whole seconds from the Unix epoch (negative
/// before it) and the nanoseconds within that second.
#[derive(Clone, Copy, Debug, PartialEq, Eq, Structural)]
pub struct ModTime {
    pub secs: i64,
    pub nanos: u32,
}

/// `a` is the same moment as `b` or a later one.
pub open spec fn not_before(a: ModTime, b: ModTime) -> bool {
    a.secs > b.secs || (a.secs == b.secs && a.nanos >= b.nanos)
}

/// Whether the file modified at `a` is at least as new as the one
/// modified at `b`.
pub fn newer_than(a: &ModTime, b: &ModTime) -> (r: bool)
    ensures
        r == not_before(*a, *b),
{
    a.secs > b.secs || (a.secs == b.secs && a.nanos >= b.nanos)
}

/// `x` is `e` with its ASCII letters in lower case.
pub open spec fn is_lowered(x: Seq<char>, e: Seq<char>) -> bool {
    x.len() == e.len() && forall|k: int| 0 <= k < x.len() ==> (#[trigger] x[k]) as u32 == ascii_lower(e[k])
}

/// The extension `ext`, once in lower case, is one of `exts`.
pub open spec fn extension_listed(ext: Seq<char>, exts: Seq<&str>) -> bool {
    exists|i: int| 0 <= i < exts.len() && is_lowered(#[trigger] exts[i]@, ext)
}

/// The extension of a path under this build's path rules: the text after
/// the file name's last dot, or `None` where there is none.
pub uninterp spec fn extension_of(p: Seq<char>) -> Option<Seq<char>>;

/// Relies on std::path::Path::extension and OsStr::to_str: the text after
/// the file name's last dot, which depends on the path alone and holds no
/// dot.
#[verifier::external_body]
fn path_extension(path: &str) -> (r: Option<String>)
    ensures
        r is Some <==> extension_of(path@) is Some,
        r is Some ==> r->0@ == extension_of(path@)->0,
        r is Some ==> forall|k: int| 0 <= k < r->0@.len() ==> #[trigger] r->0@[k] != '.',
{
    std::path::Path::new(path).extension().and_then(|e| e.to_str()).map(|e| e.to_string())
}

fn lowered(x: &str, e: &str) -> (r: bool)
    ensures
        r == is_lowered(x@, e@),
{
    let n = x.unicode_len();
    if n != e.unicode_len() {
        return false;
    }
    let mut k: usize = 0;
    while k < n
        invariant
            n == x@.len() == e@.len(),
            0 <= k <= n,
            forall|j: int| 0 <= j < k ==> (#[trigger] x@[j]) as u32 == ascii_lower(e@[j]),
        decreases n - k,
    {
        if x.get_char(k) as u32 != lower_code(e.get_char(k)) {
            return false;
        }
        k = k + 1;
    }
    true
}

/// Whether the extension `ext`, in lower case, is one of `exts`.
pub fn extension_in(ext: Option<&str>, exts: &[&str]) -> (r: bool)
    ensures
        r == (ext is Some && extension_listed(ext->0@, exts@)),
{
    match ext {
        None => false,
        Some(e) => {
            let mut i: usize = 0;
            while i < exts.len()
                invariant
                    0 <= i <= exts@.len(),
                    ext == Some(e),
                    forall|j: int| 0 <= j < i ==> !is_lowered(#[trigger] exts@[j]@, e@),
                decreases exts@.len() - i,
            {
                let x: &str = exts[i];
                if lowered(x, e) {
                    assert(is_lowered(exts@[i as int]@, e@));

                    return true;
                }
                i = i + 1;
            }
            false
        },
    }
}

/// Whether the extension of `path`, in lower case, is one of `exts`; a
/// path without an extension has none of them.
pub fn has_extension(path: &str, exts: &[&str]) -> (r: bool)
    ensures
        r == (extension_of(path@) is Some && extension_listed(extension_of(path@)->0, exts@)),
{
    let ext = path_extension(path);
    match ext {
        Some(e) => extension_in(Some(e.as_str()), exts),
        None => false,
    }
}

/// The transcoder's timeout, in seconds.
pub fn ffmpeg_timeout(ffmpeg: &FfmpegSettings) -> (r: u64)
    ensures
        r == ffmpeg.timeout_secs,
{
    ffmpeg.timeout_secs
}

/// The metadata probe's timeout in seconds: its own when set, else the
/// transcoder's.
pub fn metadata_probe_timeout(metadata: &MetadataSettings, ffmpeg: &FfmpegSettings) -> (r: u64)
    ensures
        metadata.ffmpeg_probe_timeout_secs is Some ==> r == metadata.ffmpeg_probe_timeout_secs->0,
        metadata.ffmpeg_probe_timeout_secs is None ==> r == ffmpeg.timeout_secs,
{
    match metadata.ffmpeg_probe_timeout_secs {
        Some(t) => t,
        None => ffmpeg.timeout_secs,
    }
}

pub open spec fn none_word() -> Seq<char> {
    seq!['n', 'o', 'n', 'e']
}

/// Whether the transcoder is told to use hardware acceleration: only for
/// video, and not when the setting is `none` in any letter case.
pub fn use_hwaccel(is_video: bool, hwaccel: &str) -> (r: bool)
    ensures
        r == (is_video && !eq_ignore_ascii_case(hwaccel@, none_word())),
{
    let none = "none";
    proof {
        reveal_strlit("none");
        assert(none@ =~= none_word());
    }
    is_video && !str_eq_ignore_ascii_case(hwaccel, none)
}

/// What a wait on a child process does next.
#[derive(Clone, Copy, Debug, PartialEq, Eq, Structural)]
pub enum WaitAction {
    /// The child has exited: report its status.
    Finish,
    /// The timeout has passed: kill the child, reap it and report a timeout.
    KillAndFail,
    /// Sleep for the poll interval and look again.
    Sleep,
}

/// The next step of waiting on a child, given whether it has exited and the
/// time spent so far against the timeout, in nanoseconds.
pub fn wait_action(exited: bool, elapsed_nanos: u128, timeout_nanos: u128) -> (r: WaitAction)
    ensures
        exited ==> r == WaitAction::Finish,
        !exited && elapsed_nanos >= timeout_nanos ==> r == WaitAction::KillAndFail,
        !exited && elapsed_nanos < timeout_nanos ==> r == WaitAction::Sleep,
{
    if exited {
        WaitAction::Finish
    } else if elapsed_nanos >= timeout_nanos {
        WaitAction::KillAndFail
    } else {
        WaitAction::Sleep
    }
}

/// `c` with an ASCII upper-case letter mapped to lower case.
pub open spec fn lower_char(c: char) -> char {
    if 'A' <= c && c <= 'Z' {
        ((c as u32) + 32) as char
    } else {
        c
    }
}

pub open spec fn ascii_lowercase_text(s: Seq<char>) -> Seq<char> {
    s.map_values(|c: char| lower_char(c))
}

/// Relies on str::to_ascii_lowercase: each ASCII upper-case letter mapped
/// to lower case, every other character kept.
#[verifier::external_body]
fn ascii_lowercase(s: &str) -> (r: String)
    ensures
        r@ == ascii_lowercase_text(s@),
{
    s.to_ascii_lowercase()
}

pub open spec fn decimal_digit(d: int) -> char {
    seq!['0', '1', '2', '3', '4', '5', '6', '7', '8', '9'][d]
}

/// `n` in decimal, without leading zeros.
pub open spec fn decimal_text(n: int) -> Seq<char>
    decreases n,
{
    if n < 10 {
        seq![decimal_digit(n)]
    } else {
        decimal_text(n / 10) + seq![decimal_digit(n % 10)]
    }
}

fn digit_str(d: u8) -> (r: &'static str)
    requires
        d < 10,
    ensures
        r@ == seq![decimal_digit(d as int)],
{
    proof {
        reveal_strlit("0");
        reveal_strlit("1");
        reveal_strlit("2");
        reveal_strlit("3");
        reveal_strlit("4");
        reveal_strlit("5");
        reveal_strlit("6");
        reveal_strlit("7");
        reveal_strlit("8");
        reveal_strlit("9");
    }
    let r = match d {
        0 => "0",
        1 => "1",
        2 => "2",
        3 => "3",
        4 => "4",
        5 => "5",
        6 => "6",
        7 => "7",
        8 => "8",
        _ => "9",
    };
    assert(r@ =~= seq![decimal_digit(d as int)]);
    r
}

/// `n` written in decimal.
pub fn decimal(n: u8) -> (r: String)
    ensures
        r@ == decimal_text(n as int),
{
    let mut r = String::new();
    if n >= 100 {
        r.append(digit_str(n / 100));
    }
    if n >= 10 {
        r.append(digit_str((n / 10) % 10));
    }
    r.append(digit_str(n % 10));
    proof {
        reveal_with_fuel(decimal_text, 3);
        let m = n as int;
        assert((m / 10) / 10 == m / 100);
        if m >= 100 {
            assert(decimal_text(m / 10) =~= seq![decimal_digit(m / 100)] + seq![decimal_digit((m / 10) % 10)]);
        }
        assert(r@ =~= decimal_text(m));
    }
    r
}

/// The transcoder arguments for a run: `-hwaccel` with the acceleration
/// name in lower case when hardware acceleration is used, then `-threads`
/// with the thread count.
pub fn tuning_args(is_video: bool, hwaccel: &str, threads: u8) -> (r: Vec<String>)
    ensures
        is_video && !eq_ignore_ascii_case(hwaccel@, none_word()) ==> string_views(r@) == seq![
            "-hwaccel"@,
            ascii_lowercase_text(hwaccel@),
            "-threads"@,
            decimal_text(threads as int),
        ],
        !(is_video && !eq_ignore_ascii_case(hwaccel@, none_word())) ==> string_views(r@) == seq![
            "-threads"@,
            decimal_text(threads as int),
        ],
{
    let mut r: Vec<String> = Vec::new();
    if use_hwaccel(is_video, hwaccel) {
        r.push(String::from_str("-hwaccel"));
        r.push(ascii_lowercase(hwaccel));
    }
    r.push(String::from_str("-threads"));
    r.push(decimal(threads));
    assert(string_views(r@) =~= (if is_video && !eq_ignore_ascii_case(hwaccel@, none_word()) {
        seq!["-hwaccel"@, ascii_lowercase_text(hwaccel@), "-threads"@, decimal_text(threads as int)]
    } else {
        seq!["-threads"@, decimal_text(threads as int)]
    }));
    r
}

} // verus!
