use room237::settings::{FfmpegSettings, MetadataSettings};
use room237::util::{
    extension_in, ffmpeg_timeout, has_extension, metadata_probe_timeout, newer_than, use_hwaccel,
    wait_action, ModTime, WaitAction, tuning_args, decimal,
};

#[test]
fn extension_matching_ignores_case() {
    let exts = ["jpg", "png"];
    assert!(has_extension("/a/b/Photo.JPG", &exts));
    assert!(has_extension("/a/b/x.tar.png", &exts));
    assert!(!has_extension("/a/b/movie.mp4", &exts));
    assert!(!has_extension("/a/b/noext", &exts));
    assert!(!has_extension("/a/b/.png", &exts));
    assert!(!has_extension("/a/b/file.", &exts));
}

#[test]
fn extension_in_list() {
    assert!(extension_in(Some("HeIc"), &["heic"]));
    assert!(!extension_in(Some("heic"), &["HEIC"]));
    assert!(!extension_in(None, &["heic"]));
    assert!(!extension_in(Some("png"), &[]));
}

#[test]
fn newer_than_compares_times() {
    let a = ModTime { secs: 100, nanos: 5 };
    let b = ModTime { secs: 100, nanos: 4 };
    let c = ModTime { secs: -3, nanos: 999 };
    assert!(newer_than(&a, &b));
    assert!(!newer_than(&b, &a));
    assert!(newer_than(&a, &a));
    assert!(newer_than(&b, &c));
    assert!(!newer_than(&c, &b));
}

#[test]
fn timeouts_from_settings() {
    let f = FfmpegSettings { timeout_secs: 9, ..FfmpegSettings::default() };
    assert_eq!(ffmpeg_timeout(&f), 9);
    let m = MetadataSettings { ffmpeg_probe_timeout_secs: None, parse_creation_time: true };
    assert_eq!(metadata_probe_timeout(&m, &f), 9);
    let m2 = MetadataSettings { ffmpeg_probe_timeout_secs: Some(3), parse_creation_time: true };
    assert_eq!(metadata_probe_timeout(&m2, &f), 3);
}

#[test]
fn hwaccel_only_for_video_and_not_none() {
    assert!(use_hwaccel(true, "auto"));
    assert!(use_hwaccel(true, "CUDA"));
    assert!(!use_hwaccel(true, "none"));
    assert!(!use_hwaccel(true, "NoNe"));
    assert!(!use_hwaccel(false, "auto"));
}

#[test]
fn wait_steps() {
    assert_eq!(wait_action(true, 10, 5), WaitAction::Finish);
    assert_eq!(wait_action(false, 5, 5), WaitAction::KillAndFail);
    assert_eq!(wait_action(false, 4, 5), WaitAction::Sleep);
}

#[test]
fn has_extension_literal_cases() {
    assert!(has_extension("/a/b.JPG", &["jpg", "png"]));
    assert!(!has_extension("/a/b.jpg", &["JPG"]));
    assert!(!has_extension("/a/.bashrc", &["bashrc"]));
    assert!(!has_extension("/a/b", &[""]));
}

#[test]
fn transcoder_arguments() {
    assert_eq!(tuning_args(true, "CUDA", 12), vec!["-hwaccel", "cuda", "-threads", "12"]);
    assert_eq!(tuning_args(true, "None", 4), vec!["-threads", "4"]);
    assert_eq!(tuning_args(false, "auto", 200), vec!["-threads", "200"]);
    assert_eq!(tuning_args(true, "auto", 0), vec!["-hwaccel", "auto", "-threads", "0"]);
}

#[test]
fn decimal_text_of_u8() {
    assert_eq!(decimal(0), "0");
    assert_eq!(decimal(7), "7");
    assert_eq!(decimal(10), "10");
    assert_eq!(decimal(100), "100");
    assert_eq!(decimal(255), "255");
}
