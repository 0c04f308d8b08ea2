use room237::linux::{
    build_gnome_copied_files, build_uri_list, gnome_copied_from, linux_first_action,
    linux_next_action, linux_outcome, uri_list_from, LinuxAction, LinuxProtocol, SessionEnv,
};
use room237::selection::ClipboardError;

fn env(session_type: &str, wayland_display: bool, x11_display: bool) -> SessionEnv {
    SessionEnv { session_type: session_type.to_string(), wayland_display, x11_display }
}

#[test]
fn x11_session_payload_starts_with_copy_line() {
    let payload = build_gnome_copied_files(&vec!["/home/u/pic.png".to_string()]).unwrap();
    assert!(payload.starts_with("copy\nfile:///home/u/pic.png\n"));
    assert_eq!(payload, "copy\nfile:///home/u/pic.png\n");
    let e = env("x11", false, true);
    assert_eq!(linux_first_action(&e), LinuxAction::Attempt(LinuxProtocol::X11));
}

#[test]
fn uri_list_one_line_per_path() {
    let paths = vec!["/a/one.png".to_string(), "/b/two words.jpg".to_string()];
    assert_eq!(
        build_uri_list(&paths).unwrap(),
        "file:///a/one.png\nfile:///b/two%20words.jpg\n"
    );
}

#[test]
fn uri_of_relative_path_fails() {
    let paths = vec!["/a.png".to_string(), "rel.png".to_string()];
    assert_eq!(
        build_uri_list(&paths),
        Err(ClipboardError::UriConversion("rel.png".to_string()))
    );
    assert_eq!(
        build_gnome_copied_files(&paths),
        Err(ClipboardError::UriConversion("rel.png".to_string()))
    );
}

#[test]
fn payloads_from_uris() {
    assert_eq!(uri_list_from(&vec![]), "\n");
    assert_eq!(gnome_copied_from(&vec![]), "copy\n");
    let uris = vec!["file:///x".to_string(), "file:///y".to_string()];
    assert_eq!(uri_list_from(&uris), "file:///x\nfile:///y\n");
    assert_eq!(gnome_copied_from(&uris), "copy\nfile:///x\nfile:///y\n");
}

#[test]
fn no_display_signals_fail() {
    let e = env("", false, false);
    let a = linux_first_action(&e);
    assert_eq!(a, LinuxAction::Failed);
    assert_eq!(linux_outcome(a), Some(Err(ClipboardError::NoClipboardAvailable)));
}

#[test]
fn x11_only_skips_wayland() {
    let e = env("x11", false, true);
    assert_eq!(linux_first_action(&e), LinuxAction::Attempt(LinuxProtocol::X11));
    assert_eq!(linux_next_action(&e, LinuxProtocol::X11, true), LinuxAction::Done);
    assert_eq!(linux_next_action(&e, LinuxProtocol::X11, false), LinuxAction::Failed);
    assert_eq!(linux_outcome(LinuxAction::Done), Some(Ok(())));
    assert_eq!(linux_outcome(LinuxAction::Attempt(LinuxProtocol::X11)), None);
}

#[test]
fn wayland_first_then_x11() {
    let e = env("wayland", false, true);
    assert_eq!(linux_first_action(&e), LinuxAction::Attempt(LinuxProtocol::Wayland));
    assert_eq!(
        linux_next_action(&e, LinuxProtocol::Wayland, false),
        LinuxAction::Attempt(LinuxProtocol::X11)
    );
    assert_eq!(linux_next_action(&e, LinuxProtocol::Wayland, true), LinuxAction::Done);
    let w = env("", true, false);
    assert_eq!(linux_first_action(&w), LinuxAction::Attempt(LinuxProtocol::Wayland));
    assert_eq!(linux_next_action(&w, LinuxProtocol::Wayland, false), LinuxAction::Failed);
    let upper = env("Wayland", false, false);
    assert_eq!(linux_first_action(&upper), LinuxAction::Failed);
}

#[test]
fn first_unconvertible_path_is_named() {
    let paths = vec!["/a.png".to_string(), "one.png".to_string(), "two.png".to_string()];
    assert_eq!(
        build_uri_list(&paths),
        Err(ClipboardError::UriConversion("one.png".to_string()))
    );
    assert_eq!(
        build_gnome_copied_files(&paths),
        Err(ClipboardError::UriConversion("one.png".to_string()))
    );
}

#[test]
fn gnome_payload_is_copy_line_and_uri_list() {
    let paths = vec!["/x/a b.png".to_string(), "/y/c.jpg".to_string()];
    let list = build_uri_list(&paths).unwrap();
    assert_eq!(build_gnome_copied_files(&paths).unwrap(), format!("copy\n{}", list));
}
