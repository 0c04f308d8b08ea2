//! The version tag of the duplicate-hash configuration: a SHA-256 digest,
//! in hex, of a text that names every setting the hashes depend on.
use sha2::Digest;
use vstd::prelude::*;
use vstd::string::*;
use vstd::utf8::encode_utf8;
use crate::settings::{DuplicatesSettings, HashAlgorithm, HashSize, ResizeFilter};

verus! {

/// The SHA-256 digest of a byte sequence.
pub uninterp spec fn sha256_of(data: Seq<u8>) -> Seq<u8>;

/// Relies on sha2::Sha256::digest: the digest of the text's UTF-8 bytes,
/// which is 32 bytes long.
#[verifier::external_body]
fn sha256(text: &str) -> (r: Vec<u8>)
    ensures
        r@ == sha256_of(encode_utf8(text@)),
        r@.len() == 32,
{
    sha2::Sha256::digest(text.as_bytes()).to_vec()
}

pub open spec fn hex_digits() -> Seq<char> {
    seq!['0', '1', '2', '3', '4', '5', '6', '7', '8', '9', 'a', 'b', 'c', 'd', 'e', 'f']
}

/// Two lower-case hex digits per byte, the high half first.
pub open spec fn hex_text(b: Seq<u8>) -> Seq<char>
    decreases b.len(),
{
    if b.len() == 0 {
        seq![]
    } else {
        hex_text(b.drop_last()) + seq![
            hex_digits()[b.last() as int / 16],
            hex_digits()[b.last() as int % 16],
        ]
    }
}

proof fn lemma_hex_text(b: Seq<u8>)
    ensures
        hex_text(b).len() == 2 * b.len(),
        forall|i: int| 0 <= i < hex_text(b).len() ==> hex_digits().contains(#[trigger] hex_text(b)[i]),
    decreases b.len(),
{
    if b.len() > 0 {
        let p = b.drop_last();
        lemma_hex_text(p);
        let hi = b.last() as int / 16;
        let lo = b.last() as int % 16;
        assert(hex_digits().len() == 16);
        assert forall|i: int| 0 <= i < hex_text(b).len() implies hex_digits().contains(
            #[trigger] hex_text(b)[i],
        ) by {
            if i < hex_text(p).len() {
                assert(hex_text(b)[i] == hex_text(p)[i]);
            } else if i == hex_text(p).len() {
                assert(hex_text(b)[i] == hex_digits()[hi]);
            } else {
                assert(hex_text(b)[i] == hex_digits()[lo]);
            }
        }
    }
}

/// Relies on hex::encode: two lower-case hex digits per byte, the high half
/// first.
#[verifier::external_body]
fn hex_encode(b: &Vec<u8>) -> (r: String)
    ensures
        r@ == hex_text(b@),
{
    hex::encode(b)
}

/// The schema of the hash configuration; a change invalidates every hash.
pub open spec fn schema_version() -> Seq<char> {
    "1"@
}

pub open spec fn alg_name(a: HashAlgorithm) -> Seq<char> {
    match a {
        HashAlgorithm::Blockhash => "Blockhash"@,
        HashAlgorithm::Phash => "Phash"@,
        HashAlgorithm::Dhash => "Dhash"@,
    }
}

pub open spec fn filter_name(f: ResizeFilter) -> Seq<char> {
    match f {
        ResizeFilter::Nearest => "Nearest"@,
        ResizeFilter::Triangle => "Triangle"@,
        ResizeFilter::Catmullrom => "Catmullrom"@,
        ResizeFilter::Lanczos3 => "Lanczos3"@,
    }
}

pub open spec fn side_text(s: HashSize) -> Seq<char> {
    match s {
        HashSize::S8x8 => "8"@,
        HashSize::S16x16 => "16"@,
        HashSize::S32x32 => "32"@,
    }
}

pub open spec fn bool_text(b: bool) -> Seq<char> {
    if b {
        "true"@
    } else {
        "false"@
    }
}

/// The text that is digested: the schema version, then the algorithm, the
/// hash size, the resize filter, whether thumbnails are hashed first, and
/// the thumbnail version.
pub open spec fn hash_version_input(d: DuplicatesSettings, thumb_version: Seq<char>) -> Seq<char> {
    schema_version() + "alg:"@ + alg_name(d.hash_alg) + "|size:"@ + side_text(d.hash_size) + "x"@
        + side_text(d.hash_size) + "|filter:"@ + filter_name(d.resize_filter) + "|thumb_first:"@
        + bool_text(d.use_thumbnails_first) + "|thumb_version:"@ + thumb_version
}

fn alg_str(a: HashAlgorithm) -> (r: &'static str)
    ensures
        r@ == alg_name(a),
{
    match a {
        HashAlgorithm::Blockhash => "Blockhash",
        HashAlgorithm::Phash => "Phash",
        HashAlgorithm::Dhash => "Dhash",
    }
}

fn filter_str(f: ResizeFilter) -> (r: &'static str)
    ensures
        r@ == filter_name(f),
{
    match f {
        ResizeFilter::Nearest => "Nearest",
        ResizeFilter::Triangle => "Triangle",
        ResizeFilter::Catmullrom => "Catmullrom",
        ResizeFilter::Lanczos3 => "Lanczos3",
    }
}

fn side_str(s: HashSize) -> (r: &'static str)
    ensures
        r@ == side_text(s),
{
    match s {
        HashSize::S8x8 => "8",
        HashSize::S16x16 => "16",
        HashSize::S32x32 => "32",
    }
}

fn bool_str(b: bool) -> (r: &'static str)
    ensures
        r@ == bool_text(b),
{
    if b {
        "true"
    } else {
        "false"
    }
}

/// The version tag of the hash configuration of `d`, given the thumbnail
/// version (empty when thumbnails are not hashed first).
pub fn hash_version(d: &DuplicatesSettings, thumb_version: &str) -> (r: String)
    ensures
        r@ == hex_text(sha256_of(encode_utf8(hash_version_input(*d, thumb_version@)))),
        r@.len() == 64,
        forall|i: int| 0 <= i < r@.len() ==> hex_digits().contains(#[trigger] r@[i]),
{
    let mut s = String::from_str("1");
    s.append("alg:");
    s.append(alg_str(d.hash_alg));
    s.append("|size:");
    s.append(side_str(d.hash_size));
    s.append("x");
    s.append(side_str(d.hash_size));
    s.append("|filter:");
    s.append(filter_str(d.resize_filter));
    s.append("|thumb_first:");
    s.append(bool_str(d.use_thumbnails_first));
    s.append("|thumb_version:");
    s.append(thumb_version);
    assert(s@ =~= hash_version_input(*d, thumb_version@));
    let digest = sha256(s.as_str());
    let r = hex_encode(&digest);
    proof {
        lemma_hex_text(digest@);
    }
    r
}

} // verus!
