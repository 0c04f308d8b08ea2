use room237::selection::{
    pasteboard_result, plan_clipboard_write, select_backend, validate_selection, Backend,
    ClipboardError, PathProbe, Platform,
};

fn probe(path: &str, absolute: bool, exists: bool, is_file: bool) -> PathProbe {
    PathProbe { path: path.to_string(), absolute, exists, is_file }
}

fn file(path: &str) -> PathProbe {
    probe(path, true, true, true)
}

#[test]
fn empty_selection_is_no_input() {
    assert_eq!(validate_selection(&vec![]), Err(ClipboardError::NoInput));
    for p in [Platform::Windows, Platform::MacOs, Platform::Linux, Platform::Other] {
        assert_eq!(plan_clipboard_write(&vec![], p), Err(ClipboardError::NoInput));
    }
}

#[test]
fn relative_path_is_invalid() {
    let probes = vec![file("/home/u/a.png"), probe("b.png", false, true, true)];
    assert_eq!(
        validate_selection(&probes),
        Err(ClipboardError::InvalidPath("b.png".to_string()))
    );
    assert_eq!(
        plan_clipboard_write(&probes, Platform::Linux),
        Err(ClipboardError::InvalidPath("b.png".to_string()))
    );
}

#[test]
fn missing_path_is_not_found() {
    let probes = vec![probe("/home/u/gone.png", true, false, false)];
    assert_eq!(
        validate_selection(&probes),
        Err(ClipboardError::NotFound("/home/u/gone.png".to_string()))
    );
}

#[test]
fn directory_is_not_a_file_on_every_platform() {
    let probes = vec![file("/home/u/a.png"), probe("/home/u", true, true, false), file("/b.png")];
    for p in [Platform::Windows, Platform::MacOs, Platform::Linux, Platform::Other] {
        assert_eq!(
            plan_clipboard_write(&probes, p),
            Err(ClipboardError::NotAFile("/home/u".to_string()))
        );
    }
}

#[test]
fn first_failing_path_decides() {
    let probes = vec![probe("/x", true, false, false), probe("rel", false, false, false)];
    assert_eq!(
        validate_selection(&probes),
        Err(ClipboardError::NotFound("/x".to_string()))
    );
}

#[test]
fn valid_selection_keeps_input_order() {
    let probes = vec![file("/b.png"), file("/a.png"), file("/c.png")];
    assert_eq!(
        validate_selection(&probes),
        Ok(vec!["/b.png".to_string(), "/a.png".to_string(), "/c.png".to_string()])
    );
    let (backend, paths) = plan_clipboard_write(&probes, Platform::Windows).unwrap();
    assert_eq!(backend, Backend::Windows);
    assert_eq!(paths, vec!["/b.png".to_string(), "/a.png".to_string(), "/c.png".to_string()]);
}

#[test]
fn backend_per_platform() {
    assert_eq!(select_backend(Platform::Windows), Ok(Backend::Windows));
    assert_eq!(select_backend(Platform::MacOs), Ok(Backend::Mac));
    assert_eq!(select_backend(Platform::Linux), Ok(Backend::Linux));
    assert_eq!(select_backend(Platform::Other), Err(ClipboardError::UnsupportedPlatform));
    assert_eq!(
        plan_clipboard_write(&vec![file("/a")], Platform::Other),
        Err(ClipboardError::UnsupportedPlatform)
    );
}

#[test]
fn pasteboard_write_outcome() {
    assert_eq!(pasteboard_result(true), Ok(()));
    assert_eq!(pasteboard_result(false), Err(ClipboardError::ClipboardWriteFailed));
}

#[test]
fn error_messages() {
    assert_eq!(ClipboardError::NoInput.message(), "No paths provided");
    assert_eq!(
        ClipboardError::InvalidPath("x.png".to_string()).message(),
        "Path is not absolute: x.png"
    );
    assert_eq!(
        ClipboardError::NotFound("/x".to_string()).message(),
        "Path does not exist: /x"
    );
    assert_eq!(
        ClipboardError::NotAFile("/home".to_string()).message(),
        "Path is not a regular file: /home"
    );
    assert_eq!(ClipboardError::UnsupportedPlatform.message(), "Unsupported platform");
    assert_eq!(
        ClipboardError::NoClipboardAvailable.message(),
        "Failed to access clipboard: neither X11 nor Wayland clipboard available"
    );
}
