use room237::filemanager::{
    desktop_file_manager, file_manager_name, linux_file_manager, needs_process_list,
    process_file_manager, str_contains,
};
use room237::selection::Platform;

#[test]
fn desktop_names_pick_file_manager() {
    assert_eq!(desktop_file_manager("ubuntu:gnome"), Some("GNOME Files".to_string()));
    assert_eq!(desktop_file_manager("kde"), Some("Dolphin".to_string()));
    assert_eq!(desktop_file_manager("x-cinnamon"), Some("Nemo".to_string()));
    assert_eq!(desktop_file_manager("sway"), None);
    assert_eq!(desktop_file_manager("KDE"), None);
}

#[test]
fn process_names_pick_file_manager() {
    assert_eq!(process_file_manager("systemd\nbash\npcmanfm-qt\n"), Some("PCManFM-Qt".to_string()));
    assert_eq!(process_file_manager("init\nthunar\nnemo\n"), Some("Nemo".to_string()));
    assert_eq!(process_file_manager("init\nbash\n"), None);
}

#[test]
fn linux_lookup_order() {
    assert_eq!(linux_file_manager("XFCE", Some("nautilus")), "Thunar");
    assert_eq!(linux_file_manager("sway", Some("Dolphin\n")), "Dolphin");
    assert_eq!(linux_file_manager("sway", None), "File Manager");
    assert_eq!(linux_file_manager("", Some("bash")), "File Manager");
}

#[test]
fn platform_file_managers() {
    assert_eq!(file_manager_name(Platform::MacOs, "", None), "Finder");
    assert_eq!(file_manager_name(Platform::Windows, "", None), "File Explorer");
    assert_eq!(file_manager_name(Platform::Linux, "MATE", None), "Caja");
    assert_eq!(file_manager_name(Platform::Other, "gnome", None), "File Manager");
}

#[test]
fn substring_search() {
    assert!(str_contains("abc", ""));
    assert!(str_contains("abc", "bc"));
    assert!(!str_contains("abc", "abcd"));
    assert!(!str_contains("", "a"));
}

#[test]
fn process_list_only_as_fallback() {
    assert!(!needs_process_list(Platform::Linux, "GNOME"));
    assert!(needs_process_list(Platform::Linux, "sway"));
    assert!(!needs_process_list(Platform::MacOs, "sway"));
    assert!(!needs_process_list(Platform::Windows, ""));
}
