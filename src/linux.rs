//! The Linux clipboard: choosing between the Wayland data-control protocol
//! and X11 selection ownership, and the URI-list payloads both serve.
use vstd::prelude::*;
use vstd::string::*;
use crate::selection::{ClipboardError, string_views};

verus! {

/// The display signals of the session, as the environment reports them.
#[derive(Clone, Debug)]
pub struct SessionEnv {
    /// The declared session type; empty when none is declared.
    pub session_type: String,
    /// A Wayland display is named.
    pub wayland_display: bool,
    /// An X11 display is named.
    pub x11_display: bool,
}

#[derive(Clone, Copy, Debug, PartialEq, Eq, Structural)]
pub enum LinuxProtocol {
    Wayland,
    X11,
}

/// What the Linux backend does next.
#[derive(Clone, Copy, Debug, PartialEq, Eq, Structural)]
pub enum LinuxAction {
    Attempt(LinuxProtocol),
    Done,
    Failed,
}

pub open spec fn wayland_word() -> Seq<char> {
    seq!['w', 'a', 'y', 'l', 'a', 'n', 'd']
}

/// The session asks for Wayland: its type says so, or a Wayland display
/// is named.
pub open spec fn wants_wayland(env: SessionEnv) -> bool {
    env.session_type@ == wayland_word() || env.wayland_display
}

pub open spec fn first_action(env: SessionEnv) -> LinuxAction {
    if wants_wayland(env) {
        LinuxAction::Attempt(LinuxProtocol::Wayland)
    } else if env.x11_display {
        LinuxAction::Attempt(LinuxProtocol::X11)
    } else {
        LinuxAction::Failed
    }
}

pub open spec fn next_action(env: SessionEnv, tried: LinuxProtocol, succeeded: bool) -> LinuxAction {
    if succeeded {
        LinuxAction::Done
    } else {
        match tried {
            LinuxProtocol::Wayland => if env.x11_display {
                LinuxAction::Attempt(LinuxProtocol::X11)
            } else {
                LinuxAction::Failed
            },
            LinuxProtocol::X11 => LinuxAction::Failed,
        }
    }
}

/// Whether an attempt with `p` succeeds, given the outcome of each protocol.
pub open spec fn attempt_ok(p: LinuxProtocol, wayland_ok: bool, x11_ok: bool) -> bool {
    match p {
        LinuxProtocol::Wayland => wayland_ok,
        LinuxProtocol::X11 => x11_ok,
    }
}

/// Runs the steps from `a`, for at most `fuel` attempts: the protocols
/// attempted, in order, and the final action.
pub open spec fn run_from(
    env: SessionEnv,
    a: LinuxAction,
    wayland_ok: bool,
    x11_ok: bool,
    fuel: nat,
) -> (Seq<LinuxProtocol>, LinuxAction)
    decreases fuel,
{
    match a {
        LinuxAction::Attempt(p) => if fuel == 0 {
            (seq![], a)
        } else {
            let rest = run_from(
                env,
                next_action(env, p, attempt_ok(p, wayland_ok, x11_ok)),
                wayland_ok,
                x11_ok,
                (fuel - 1) as nat,
            );
            (seq![p] + rest.0, rest.1)
        },
        _ => (seq![], a),
    }
}

/// A whole call on the session `env`, where each protocol succeeds or fails
/// as given.
pub open spec fn linux_run(env: SessionEnv, wayland_ok: bool, x11_ok: bool) -> (
    Seq<LinuxProtocol>,
    LinuxAction,
) {
    run_from(env, first_action(env), wayland_ok, x11_ok, 2)
}

/// The first step on `env`: Wayland when the session asks for it, else X11
/// when an X11 display is named, else failure.
pub fn linux_first_action(env: &SessionEnv) -> (r: LinuxAction)
    ensures
        r == first_action(*env),
{
    let wayland = String::from_str("wayland");
    proof {
        reveal_strlit("wayland");
        assert(wayland@ =~= wayland_word());
    }
    if env.session_type == wayland || env.wayland_display {
        LinuxAction::Attempt(LinuxProtocol::Wayland)
    } else if env.x11_display {
        LinuxAction::Attempt(LinuxProtocol::X11)
    } else {
        LinuxAction::Failed
    }
}

/// The step after an attempt with `tried`: done on success; after a failed
/// Wayland attempt, X11 when an X11 display is named; else failure.
pub fn linux_next_action(env: &SessionEnv, tried: LinuxProtocol, succeeded: bool) -> (r:
    LinuxAction)
    ensures
        r == next_action(*env, tried, succeeded),
{
    if succeeded {
        LinuxAction::Done
    } else {
        match tried {
            LinuxProtocol::Wayland => if env.x11_display {
                LinuxAction::Attempt(LinuxProtocol::X11)
            } else {
                LinuxAction::Failed
            },
            LinuxProtocol::X11 => LinuxAction::Failed,
        }
    }
}

/// The call's result once the steps end: `None` while an attempt is still
/// to be made.
pub fn linux_outcome(a: LinuxAction) -> (r: Option<Result<(), ClipboardError>>)
    ensures
        a is Attempt ==> r is None,
        a is Done ==> r == Some(Ok::<(), ClipboardError>(())),
        a is Failed ==> r == Some(Err::<(), ClipboardError>(ClipboardError::NoClipboardAvailable)),
{
    match a {
        LinuxAction::Attempt(_) => None,
        LinuxAction::Done => Some(Ok(())),
        LinuxAction::Failed => Some(Err(ClipboardError::NoClipboardAvailable)),
    }
}

/// With neither a Wayland signal nor an X11 display, no protocol is
/// attempted and the call fails, whatever either protocol would do.
pub proof fn lemma_no_display_fails(env: SessionEnv, wayland_ok: bool, x11_ok: bool)
    requires
        !wants_wayland(env),
        !env.x11_display,
    ensures
        linux_run(env, wayland_ok, x11_ok).0.len() == 0,
        linux_run(env, wayland_ok, x11_ok).1 == LinuxAction::Failed,
{
}

/// With an X11 display and no Wayland signal, Wayland is never attempted:
/// X11 is the one attempt, and its outcome decides the call.
pub proof fn lemma_x11_only_skips_wayland(env: SessionEnv, wayland_ok: bool, x11_ok: bool)
    requires
        !wants_wayland(env),
        env.x11_display,
    ensures
        linux_run(env, wayland_ok, x11_ok).0 == seq![LinuxProtocol::X11],
        !linux_run(env, wayland_ok, x11_ok).0.contains(LinuxProtocol::Wayland),
        linux_run(env, wayland_ok, x11_ok).1 == (if x11_ok {
            LinuxAction::Done
        } else {
            LinuxAction::Failed
        }),
{
    let r = linux_run(env, wayland_ok, x11_ok);
    let rest = run_from(
        env,
        next_action(env, LinuxProtocol::X11, x11_ok),
        wayland_ok,
        x11_ok,
        1,
    );
    assert(rest.0 =~= Seq::<LinuxProtocol>::empty());
    assert(r.0 =~= seq![LinuxProtocol::X11]);
    assert(r.0[0] != LinuxProtocol::Wayland);
}

/// Each URI followed by a newline.
pub open spec fn lines_of(uris: Seq<Seq<char>>) -> Seq<char>
    decreases uris.len(),
{
    if uris.len() == 0 {
        seq![]
    } else {
        lines_of(uris.drop_last()) + uris.last() + seq!['\n']
    }
}

/// The `text/uri-list` payload: the URIs joined by newlines, with a
/// trailing newline.
pub open spec fn uri_list_text(uris: Seq<Seq<char>>) -> Seq<char> {
    if uris.len() == 0 {
        seq!['\n']
    } else {
        lines_of(uris)
    }
}

/// The GNOME copied-files payload: a `copy` line, then one URI per line.
pub open spec fn gnome_text(uris: Seq<Seq<char>>) -> Seq<char> {
    seq!['c', 'o', 'p', 'y', '\n'] + lines_of(uris)
}

pub open spec fn file_scheme() -> Seq<char> {
    seq!['f', 'i', 'l', 'e', ':', '/', '/']
}

/// The `file://` URL that the url crate makes of a path under this
/// build's path rules, or `None` where it refuses the path.
pub uninterp spec fn file_url_of(p: Seq<char>) -> Option<Seq<char>>;

/// Every path converts to a URL.
pub open spec fn all_convert(paths: Seq<Seq<char>>) -> bool {
    forall|i: int| 0 <= i < paths.len() ==> (#[trigger] file_url_of(paths[i])) is Some
}

/// The URLs of the paths, in order.
pub open spec fn urls_of(paths: Seq<Seq<char>>) -> Seq<Seq<char>> {
    paths.map_values(|p: Seq<char>| file_url_of(p)->0)
}

/// Path `k` is the first that does not convert.
pub open spec fn first_unconvertible(paths: Seq<Seq<char>>, k: int) -> bool {
    &&& 0 <= k < paths.len()
    &&& file_url_of(paths[k]) is None
    &&& forall|j: int| 0 <= j < k ==> (#[trigger] file_url_of(paths[j])) is Some
}

/// Relies on url::Url::from_file_path, which depends on the path alone
/// (and fails on one that is not absolute), and on the URL's
/// serialization, which begins with `file://`.
#[verifier::external_body]
fn file_uri(path: &str) -> (r: Option<String>)
    ensures
        r is Some <==> file_url_of(path@) is Some,
        r is Some ==> r->0@ == file_url_of(path@)->0,
        r is Some ==> r->0@.len() >= 7 && r->0@.subrange(0, 7) == file_scheme(),
{
    url::Url::from_file_path(std::path::Path::new(path)).ok().map(|u| u.to_string())
}

fn append_lines(out: &mut String, uris: &Vec<String>)
    ensures
        final(out)@ == old(out)@ + lines_of(string_views(uris@)),
{
    let mut i: usize = 0;
    while i < uris.len()
        invariant
            0 <= i <= uris@.len(),
            out@ == old(out)@ + lines_of(string_views(uris@).subrange(0, i as int)),
        decreases uris@.len() - i,
    {
        out.append(uris[i].as_str());
        out.append("\n");
        proof {
            reveal_strlit("\n");
            let v = string_views(uris@);
            assert(v.subrange(0, i + 1).drop_last() =~= v.subrange(0, i as int));
            assert(out@ =~= old(out)@ + lines_of(v.subrange(0, i + 1)));
        }
        i = i + 1;
    }
    assert(string_views(uris@).subrange(0, uris@.len() as int) =~= string_views(uris@));
}

/// The `text/uri-list` payload for the given URIs.
pub fn uri_list_from(uris: &Vec<String>) -> (r: String)
    ensures
        r@ == uri_list_text(string_views(uris@)),
{
    if uris.len() == 0 {
        let r = String::from_str("\n");
        proof {
            reveal_strlit("\n");
        }
        assert(r@ =~= seq!['\n']);
        r
    } else {
        let mut r = String::new();
        append_lines(&mut r, uris);
        assert(r@ =~= lines_of(string_views(uris@)));
        r
    }
}

/// The GNOME copied-files payload for the given URIs.
pub fn gnome_copied_from(uris: &Vec<String>) -> (r: String)
    ensures
        r@ == gnome_text(string_views(uris@)),
{
    let mut r = String::from_str("copy\n");
    proof {
        reveal_strlit("copy\n");
    }
    append_lines(&mut r, uris);
    r
}

/// A `file://` URI for each path, in order; the first path that cannot be
/// converted is the error.
fn file_uris(paths: &Vec<String>) -> (r: Result<Vec<String>, ClipboardError>)
    ensures
        r is Ok <==> all_convert(string_views(paths@)),
        r is Ok ==> string_views(r->Ok_0@) == urls_of(string_views(paths@)),
        r is Err ==> exists|k: int|
            first_unconvertible(string_views(paths@), k) && r->Err_0
                == ClipboardError::UriConversion(#[trigger] paths@[k]),
{
    let ghost v = string_views(paths@);
    let mut out: Vec<String> = Vec::new();
    let mut i: usize = 0;
    while i < paths.len()
        invariant
            0 <= i <= paths@.len(),
            v == string_views(paths@),
            out@.len() == i,
            forall|j: int| 0 <= j < i ==> (#[trigger] file_url_of(v[j])) is Some,
            string_views(out@) == urls_of(v.subrange(0, i as int)),
        decreases paths@.len() - i,
    {
        match file_uri(paths[i].as_str()) {
            Some(u) => {
                let ghost prev = out@;
                out.push(u);
                proof {
                    assert(v[i as int] == paths@[i as int]@);
                    assert(string_views(out@) =~= string_views(prev).push(out@[i as int]@));
                    assert(urls_of(v.subrange(0, i + 1)) =~= urls_of(v.subrange(0, i as int)).push(
                        file_url_of(v[i as int])->0,
                    ));
                }
            },
            None => {
                assert(v[i as int] == paths@[i as int]@);
                assert(first_unconvertible(v, i as int));
                assert(!all_convert(v));
                return Err(ClipboardError::UriConversion(paths[i].clone()));
            },
        }
        i = i + 1;
    }
    assert(v.subrange(0, paths@.len() as int) =~= v);
    Ok(out)
}

/// The `text/uri-list` payload for `paths`: one `file://` URI per path, in
/// order, each on its own line. It fails, naming the first path that does
/// not convert, exactly when one does not.
pub fn build_uri_list(paths: &Vec<String>) -> (r: Result<String, ClipboardError>)
    ensures
        r is Ok <==> all_convert(string_views(paths@)),
        r is Ok ==> r->Ok_0@ == uri_list_text(urls_of(string_views(paths@))),
        r is Err ==> exists|k: int|
            first_unconvertible(string_views(paths@), k) && r->Err_0
                == ClipboardError::UriConversion(#[trigger] paths@[k]),
{
    let uris = file_uris(paths)?;
    Ok(uri_list_from(&uris))
}

/// The GNOME copied-files payload for `paths`: a `copy` line, then one
/// `file://` URI per path, in order. It fails as the URI list does.
pub fn build_gnome_copied_files(paths: &Vec<String>) -> (r: Result<String, ClipboardError>)
    ensures
        r is Ok <==> all_convert(string_views(paths@)),
        r is Ok ==> r->Ok_0@ == gnome_text(urls_of(string_views(paths@))),
        r is Err ==> exists|k: int|
            first_unconvertible(string_views(paths@), k) && r->Err_0
                == ClipboardError::UriConversion(#[trigger] paths@[k]),
{
    let uris = file_uris(paths)?;
    Ok(gnome_copied_from(&uris))
}

/// The GNOME payload for some paths is the `copy` line followed by the URI
/// list for the same paths.
pub proof fn lemma_gnome_extends_uri_list(uris: Seq<Seq<char>>)
    requires
        uris.len() > 0,
    ensures
        gnome_text(uris) == seq!['c', 'o', 'p', 'y', '\n'] + uri_list_text(uris),
{
}

/// The first path that fails to convert is unique.
pub proof fn lemma_first_unconvertible_unique(paths: Seq<Seq<char>>, k: int, m: int)
    requires
        first_unconvertible(paths, k),
        first_unconvertible(paths, m),
    ensures
        k == m,
{
    if k < m {
        assert(file_url_of(paths[k]) is Some);
    } else if m < k {
        assert(file_url_of(paths[m]) is Some);
    }
}

} // verus!
