use room237::digest::hash_version;
use room237::settings::{DuplicatesSettings, HashAlgorithm, HashSize, ResizeFilter};
use sha2::{Digest, Sha256};

fn expected(text: &str) -> String {
    hex::encode(Sha256::digest(text.as_bytes()))
}

#[test]
fn hash_version_of_defaults() {
    let d = DuplicatesSettings::default();
    let v = hash_version(&d, "0123456789abcdef");
    assert_eq!(
        v,
        expected("1alg:Blockhash|size:16x16|filter:Nearest|thumb_first:true|thumb_version:0123456789abcdef")
    );
    assert_eq!(v.len(), 64);
}

#[test]
fn hash_version_names_every_setting() {
    let d = DuplicatesSettings {
        threshold: 10,
        hash_size: HashSize::S8x8,
        hash_alg: HashAlgorithm::Dhash,
        resize_filter: ResizeFilter::Lanczos3,
        use_thumbnails_first: false,
        max_files_per_album: 3,
    };
    assert_eq!(
        hash_version(&d, ""),
        expected("1alg:Dhash|size:8x8|filter:Lanczos3|thumb_first:false|thumb_version:")
    );
    let e = DuplicatesSettings { hash_alg: HashAlgorithm::Phash, resize_filter: ResizeFilter::Catmullrom, hash_size: HashSize::S32x32, ..d };
    assert_eq!(
        hash_version(&e, ""),
        expected("1alg:Phash|size:32x32|filter:Catmullrom|thumb_first:false|thumb_version:")
    );
    assert_ne!(hash_version(&d, ""), hash_version(&e, ""));
}

#[test]
fn hash_version_is_lower_hex() {
    let v = hash_version(&DuplicatesSettings::default(), "");
    assert_eq!(v.len(), 64);
    assert!(v.chars().all(|c| c.is_ascii_digit() || ('a'..='f').contains(&c)));
}
