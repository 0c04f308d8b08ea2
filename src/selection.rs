//! Validation of a file selection and the choice of the clipboard backend.
use vstd::prelude::*;
use vstd::string::*;

verus! {

/// What the host reports about one requested path, gathered at call time.
#[derive(Clone, Debug)]
pub struct PathProbe {
    pub path: String,
    pub absolute: bool,
    pub exists: bool,
    pub is_file: bool,
}

/// Every way that writing a file selection to the clipboard can fail.
#[derive(Clone, Debug, PartialEq, Eq)]
pub enum ClipboardError {
    NoInput,
    InvalidPath(String),
    NotFound(String),
    NotAFile(String),
    UriConversion(String),
    OpenFailed(String),
    EmptyFailed(String),
    AllocateFailed(String),
    LockFailed,
    SetDataFailed,
    ClipboardWriteFailed,
    NoClipboardAvailable,
    UnsupportedPlatform,
}

impl ClipboardError {
    /// The error as one descriptive message.
    pub fn message(&self) -> (r: String)
        ensures
            self is NoInput ==> r@ == "No paths provided"@,
            self is InvalidPath ==> r@ == "Path is not absolute: "@ + self->InvalidPath_0@,
            self is NotFound ==> r@ == "Path does not exist: "@ + self->NotFound_0@,
            self is NotAFile ==> r@ == "Path is not a regular file: "@ + self->NotAFile_0@,
            self is UriConversion ==> r@ == "Failed to convert path to URI: "@
                + self->UriConversion_0@,
            self is OpenFailed ==> r@ == "Failed to open clipboard: "@ + self->OpenFailed_0@,
            self is EmptyFailed ==> r@ == "Failed to empty clipboard: "@ + self->EmptyFailed_0@,
            self is AllocateFailed ==> r@ == "Failed to allocate memory: "@
                + self->AllocateFailed_0@,
            self is LockFailed ==> r@ == "Failed to lock memory"@,
            self is SetDataFailed ==> r@ == "Failed to set clipboard data"@,
            self is ClipboardWriteFailed ==> r@ == "Failed to write file URLs to pasteboard"@,
            self is NoClipboardAvailable ==> r@
                == "Failed to access clipboard: neither X11 nor Wayland clipboard available"@,
            self is UnsupportedPlatform ==> r@ == "Unsupported platform"@,
    {
        match self {
            ClipboardError::NoInput => String::from_str("No paths provided"),
            ClipboardError::InvalidPath(p) => String::from_str("Path is not absolute: ").concat(
                p.as_str(),
            ),
            ClipboardError::NotFound(p) => String::from_str("Path does not exist: ").concat(
                p.as_str(),
            ),
            ClipboardError::NotAFile(p) => String::from_str("Path is not a regular file: ").concat(
                p.as_str(),
            ),
            ClipboardError::UriConversion(p) => String::from_str(
                "Failed to convert path to URI: ",
            ).concat(p.as_str()),
            ClipboardError::OpenFailed(t) => String::from_str("Failed to open clipboard: ").concat(
                t.as_str(),
            ),
            ClipboardError::EmptyFailed(t) => String::from_str("Failed to empty clipboard: ").concat(
                t.as_str(),
            ),
            ClipboardError::AllocateFailed(t) => String::from_str(
                "Failed to allocate memory: ",
            ).concat(t.as_str()),
            ClipboardError::LockFailed => String::from_str("Failed to lock memory"),
            ClipboardError::SetDataFailed => String::from_str("Failed to set clipboard data"),
            ClipboardError::ClipboardWriteFailed => String::from_str(
                "Failed to write file URLs to pasteboard",
            ),
            ClipboardError::NoClipboardAvailable => String::from_str(
                "Failed to access clipboard: neither X11 nor Wayland clipboard available",
            ),
            ClipboardError::UnsupportedPlatform => String::from_str("Unsupported platform"),
        }
    }
}

/// Why a single path is refused.
#[derive(Clone, Copy, Debug, PartialEq, Eq, Structural)]
pub enum InputFault {
    NotAbsolute,
    Missing,
    NotRegular,
}

/// The host platform that a call runs on.
#[derive(Clone, Copy, Debug, PartialEq, Eq, Structural)]
pub enum Platform {
    Windows,
    MacOs,
    Linux,
    Other,
}

/// The clipboard implementation that serves a platform.
#[derive(Clone, Copy, Debug, PartialEq, Eq, Structural)]
pub enum Backend {
    Windows,
    Mac,
    Linux,
}

/// The first check that a probed path fails, in the order absolute, exists,
/// regular file.
pub open spec fn probe_fault(p: PathProbe) -> Option<InputFault> {
    if !p.absolute {
        Some(InputFault::NotAbsolute)
    } else if !p.exists {
        Some(InputFault::Missing)
    } else if !p.is_file {
        Some(InputFault::NotRegular)
    } else {
        None
    }
}

pub open spec fn probe_ok(p: PathProbe) -> bool {
    probe_fault(p) is None
}

/// All probes before index `i` pass.
pub open spec fn ok_before(probes: Seq<PathProbe>, i: int) -> bool {
    forall|j: int| 0 <= j < i ==> #[trigger] probe_ok(probes[j])
}

/// `e` is the input error for fault `f` on the path `path`.
pub open spec fn fault_error(e: ClipboardError, f: InputFault, path: Seq<char>) -> bool {
    match e {
        ClipboardError::InvalidPath(s) => f == InputFault::NotAbsolute && s@ == path,
        ClipboardError::NotFound(s) => f == InputFault::Missing && s@ == path,
        ClipboardError::NotAFile(s) => f == InputFault::NotRegular && s@ == path,
        _ => false,
    }
}

/// The paths of the probes, in order.
pub open spec fn probe_paths(probes: Seq<PathProbe>) -> Seq<Seq<char>> {
    probes.map_values(|p: PathProbe| p.path@)
}

pub open spec fn string_views(v: Seq<String>) -> Seq<Seq<char>> {
    v.map_values(|s: String| s@)
}

/// The outcome that validation owes for `probes`, stated over the error
/// `e` it returned.
pub open spec fn validation_error(probes: Seq<PathProbe>, e: ClipboardError) -> bool {
    if probes.len() == 0 {
        e == ClipboardError::NoInput
    } else {
        exists|i: int|
            0 <= i < probes.len() && ok_before(probes, i) && #[trigger] probe_fault(probes[i])
                is Some && fault_error(e, probe_fault(probes[i])->0, probes[i].path@)
    }
}

pub open spec fn selection_valid(probes: Seq<PathProbe>) -> bool {
    probes.len() > 0 && ok_before(probes, probes.len() as int)
}

pub open spec fn backend_for(p: Platform) -> Option<Backend> {
    match p {
        Platform::Windows => Some(Backend::Windows),
        Platform::MacOs => Some(Backend::Mac),
        Platform::Linux => Some(Backend::Linux),
        Platform::Other => None,
    }
}

fn probe_check(p: &PathProbe) -> (r: Option<InputFault>)
    ensures
        r == probe_fault(*p),
{
    if !p.absolute {
        Some(InputFault::NotAbsolute)
    } else if !p.exists {
        Some(InputFault::Missing)
    } else if !p.is_file {
        Some(InputFault::NotRegular)
    } else {
        None
    }
}

fn fault_to_error(f: InputFault, path: &String) -> (e: ClipboardError)
    ensures
        fault_error(e, f, path@),
{
    match f {
        InputFault::NotAbsolute => ClipboardError::InvalidPath(path.clone()),
        InputFault::Missing => ClipboardError::NotFound(path.clone()),
        InputFault::NotRegular => ClipboardError::NotAFile(path.clone()),
    }
}

/// Checks every probed path, all or nothing: the selection is the paths in
/// input order when each is absolute, exists and is a regular file;
/// otherwise the error of the first path that fails, or `NoInput` when
/// there is none.
pub fn validate_selection(probes: &Vec<PathProbe>) -> (r: Result<Vec<String>, ClipboardError>)
    ensures
        r is Ok <==> selection_valid(probes@),
        r is Ok ==> string_views(r->Ok_0@) == probe_paths(probes@),
        r is Err ==> validation_error(probes@, r->Err_0),
{
    if probes.len() == 0 {
        return Err(ClipboardError::NoInput);
    }
    let mut out: Vec<String> = Vec::new();
    let mut i: usize = 0;
    while i < probes.len()
        invariant
            0 <= i <= probes@.len(),
            ok_before(probes@, i as int),
            out@.len() == i,
            string_views(out@) == probe_paths(probes@.subrange(0, i as int)),
        decreases probes@.len() - i,
    {
        let p = &probes[i];
        match probe_check(p) {
            Some(f) => {
                let e = fault_to_error(f, &p.path);
                assert(!probe_ok(probes@[i as int]));
                return Err(e);
            },
            None => {
                let ghost prev = out@;
                out.push(p.path.clone());
                proof {
                    assert(out@ == prev.push(out@[i as int]));
                    assert(string_views(out@) =~= string_views(prev).push(probes@[i as int].path@));
                    assert(probe_paths(probes@.subrange(0, i + 1)) =~= probe_paths(
                        probes@.subrange(0, i as int),
                    ).push(probes@[i as int].path@));
                    assert(probes@.subrange(0, i + 1) == probes@.subrange(0, i as int).push(
                        probes@[i as int],
                    ));
                    assert(string_views(out@) =~= probe_paths(probes@.subrange(0, i + 1)));
                }
                i = i + 1;
            },
        }
    }
    assert(probes@.subrange(0, probes@.len() as int) == probes@);
    Ok(out)
}

/// The backend that serves `platform`; there is no fallback from one
/// platform to another.
pub fn select_backend(platform: Platform) -> (r: Result<Backend, ClipboardError>)
    ensures
        backend_for(platform) is Some ==> r == Ok::<Backend, ClipboardError>(
            backend_for(platform)->0,
        ),
        backend_for(platform) is None ==> r == Err::<Backend, ClipboardError>(
            ClipboardError::UnsupportedPlatform,
        ),
{
    match platform {
        Platform::Windows => Ok(Backend::Windows),
        Platform::MacOs => Ok(Backend::Mac),
        Platform::Linux => Ok(Backend::Linux),
        Platform::Other => Err(ClipboardError::UnsupportedPlatform),
    }
}

/// Validates the selection, then picks the backend for `platform`: the
/// backend and the paths in input order, or the first error met. No
/// backend is chosen, so nothing reaches the clipboard, unless every path
/// passes.
pub fn plan_clipboard_write(probes: &Vec<PathProbe>, platform: Platform) -> (r: Result<
    (Backend, Vec<String>),
    ClipboardError,
>)
    ensures
        !selection_valid(probes@) ==> r is Err && validation_error(probes@, r->Err_0),
        selection_valid(probes@) && backend_for(platform) is None ==> r == Err::<
            (Backend, Vec<String>),
            ClipboardError,
        >(ClipboardError::UnsupportedPlatform),
        selection_valid(probes@) && backend_for(platform) is Some ==> r is Ok && r->Ok_0.0
            == backend_for(platform)->0 && string_views(r->Ok_0.1@) == probe_paths(probes@),
{
    let paths = validate_selection(probes)?;
    let backend = select_backend(platform)?;
    Ok((backend, paths))
}

/// The result of the pasteboard write, which replaces the pasteboard's
/// contents all at once or not at all.
pub fn pasteboard_result(written: bool) -> (r: Result<(), ClipboardError>)
    ensures
        written ==> r == Ok::<(), ClipboardError>(()),
        !written ==> r == Err::<(), ClipboardError>(ClipboardError::ClipboardWriteFailed),
{
    if written {
        Ok(())
    } else {
        Err(ClipboardError::ClipboardWriteFailed)
    }
}

proof fn lemma_first_fault_unique(probes: Seq<PathProbe>, i: int, j: int)
    requires
        0 <= i < probes.len(),
        0 <= j < probes.len(),
        ok_before(probes, i),
        ok_before(probes, j),
        probe_fault(probes[i]) is Some,
        probe_fault(probes[j]) is Some,
    ensures
        i == j,
{
    if i < j {
        assert(probe_ok(probes[i]));
    } else if j < i {
        assert(probe_ok(probes[j]));
    }
}

/// An empty selection is refused, and its only error is `NoInput`.
pub proof fn lemma_empty_selection_rejected(probes: Seq<PathProbe>, e: ClipboardError)
    requires
        probes.len() == 0,
    ensures
        !selection_valid(probes),
        validation_error(probes, e) ==> e == ClipboardError::NoInput,
{
}

/// A path that is not absolute, with every path before it valid, makes the
/// call fail with `InvalidPath` naming that path.
pub proof fn lemma_relative_path_rejected(probes: Seq<PathProbe>, i: int, e: ClipboardError)
    requires
        0 <= i < probes.len(),
        !probes[i].absolute,
        ok_before(probes, i),
    ensures
        !selection_valid(probes),
        validation_error(probes, e) ==> e is InvalidPath && e->InvalidPath_0@ == probes[i].path@,
{
    assert(!probe_ok(probes[i]));
    if validation_error(probes, e) {
        let j = choose|j: int|
            0 <= j < probes.len() && ok_before(probes, j) && #[trigger] probe_fault(probes[j])
                is Some && fault_error(e, probe_fault(probes[j])->0, probes[j].path@);
        lemma_first_fault_unique(probes, i, j);
    }
}

/// A directory (an absolute path that exists but is not a regular file),
/// with every path before it valid, makes the call fail with `NotAFile`
/// naming that path, on every platform.
pub proof fn lemma_directory_rejected(probes: Seq<PathProbe>, i: int, e: ClipboardError)
    requires
        0 <= i < probes.len(),
        probes[i].absolute,
        probes[i].exists,
        !probes[i].is_file,
        ok_before(probes, i),
    ensures
        !selection_valid(probes),
        validation_error(probes, e) ==> e is NotAFile && e->NotAFile_0@ == probes[i].path@,
{
    assert(!probe_ok(probes[i]));
    if validation_error(probes, e) {
        let j = choose|j: int|
            0 <= j < probes.len() && ok_before(probes, j) && #[trigger] probe_fault(probes[j])
                is Some && fault_error(e, probe_fault(probes[j])->0, probes[j].path@);
        lemma_first_fault_unique(probes, i, j);
    }
}

/// A selection of absolute, existing, regular files is accepted on every
/// supported platform, and the paths handed to the backend are the input
/// paths in input order.
pub proof fn lemma_valid_selection_accepted(probes: Seq<PathProbe>, platform: Platform)
    requires
        probes.len() > 0,
        forall|i: int|
            0 <= i < probes.len() ==> (#[trigger] probes[i]).absolute && probes[i].exists
                && probes[i].is_file,
        platform != Platform::Other,
    ensures
        selection_valid(probes),
        backend_for(platform) is Some,
{
    assert forall|j: int| 0 <= j < probes.len() implies #[trigger] probe_ok(probes[j]) by {
        assert(probes[j].absolute);
    }
}

} // verus!
