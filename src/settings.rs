//! Tuning settings for hashing, the media transcoder and background work,
//! and the bounds each is held to.
use vstd::prelude::*;
use crate::text::{eq_ignore_ascii_case, is_blank, parse_u8, str_eq_ignore_ascii_case, str_is_blank, str_parse_u8};

verus! {

/// Side length of the square perceptual hash.
#[derive(Clone, Copy, Debug, PartialEq, Eq, Structural)]
pub enum HashSize {
    S8x8,
    S16x16,
    S32x32,
}

impl Default for HashSize {
    fn default() -> (r: Self)
        ensures
            r == HashSize::S16x16,
    {
        HashSize::S16x16
    }
}

pub open spec fn hash_side(s: HashSize) -> u32 {
    match s {
        HashSize::S8x8 => 8,
        HashSize::S16x16 => 16,
        HashSize::S32x32 => 32,
    }
}

impl HashSize {
    /// Width and height of the hash.
    pub fn dimensions(self) -> (r: (u32, u32))
        ensures
            r == (hash_side(self), hash_side(self)),
    {
        match self {
            HashSize::S8x8 => (8, 8),
            HashSize::S16x16 => (16, 16),
            HashSize::S32x32 => (32, 32),
        }
    }

    /// Number of bits in the hash: width times height.
    pub fn bits(self) -> (r: u32)
        ensures
            r == hash_side(self) * hash_side(self),
    {
        let (w, h) = self.dimensions();
        w * h
    }
}

#[derive(Clone, Copy, Debug, PartialEq, Eq, Structural)]
pub enum HashAlgorithm {
    Blockhash,
    Phash,
    Dhash,
}

impl Default for HashAlgorithm {
    fn default() -> (r: Self)
        ensures
            r == HashAlgorithm::Blockhash,
    {
        HashAlgorithm::Blockhash
    }
}

#[derive(Clone, Copy, Debug, PartialEq, Eq, Structural)]
pub enum ResizeFilter {
    Nearest,
    Triangle,
    Catmullrom,
    Lanczos3,
}

impl Default for ResizeFilter {
    fn default() -> (r: Self)
        ensures
            r == ResizeFilter::Nearest,
    {
        ResizeFilter::Nearest
    }
}

/// Worker thread count: a number, or `auto` for the machine's parallelism.
#[derive(Clone, Debug)]
pub enum ThreadSetting {
    Auto(String),
    Count(u8),
}

impl Default for ThreadSetting {
    fn default() -> (r: Self)
        ensures
            r == ThreadSetting::Count(4),
    {
        ThreadSetting::Count(4)
    }
}

pub open spec fn auto_word() -> Seq<char> {
    seq!['a', 'u', 't', 'o']
}

pub open spec fn clamp_int(v: int, lo: int, hi: int) -> int {
    if v < lo {
        lo
    } else if v > hi {
        hi
    } else {
        v
    }
}

/// The count that a thread setting normalizes to, or `None` where it
/// normalizes to `auto`: `auto` in any letter case stays `auto`, a decimal
/// number becomes that count, other text becomes `auto`; a count is held
/// to 1..=32.
pub open spec fn normalized_count(t: ThreadSetting) -> Option<u8> {
    match t {
        ThreadSetting::Auto(s) => if eq_ignore_ascii_case(s@, auto_word()) {
            None
        } else {
            parse_u8(s@)
        },
        ThreadSetting::Count(n) => Some(clamp_int(n as int, 1, 32) as u8),
    }
}

impl ThreadSetting {
    /// The normal form of this setting.
    pub fn normalize(self) -> (r: Self)
        ensures
            normalized_count(self) is Some ==> r == ThreadSetting::Count(
                normalized_count(self)->0,
            ),
            normalized_count(self) is None ==> r is Auto && r->Auto_0@ == auto_word(),
    {
        match self {
            ThreadSetting::Auto(s) => {
                let auto = String::from_str("auto");
                proof {
                    reveal_strlit("auto");
                    assert(auto@ =~= auto_word());
                }
                if str_eq_ignore_ascii_case(s.as_str(), auto.as_str()) {
                    ThreadSetting::Auto(auto)
                } else {
                    match str_parse_u8(s.as_str()) {
                        Some(n) => ThreadSetting::Count(n),
                        None => ThreadSetting::Auto(auto),
                    }
                }
            },
            ThreadSetting::Count(n) => {
                let c: u8 = if n < 1 {
                    1
                } else if n > 32 {
                    32
                } else {
                    n
                };
                ThreadSetting::Count(c)
            },
        }
    }

    /// The number of worker threads, held to 1..=32; for `auto`, the
    /// machine's parallelism when known, else 4.
    pub fn resolved(&self, available: Option<usize>) -> (r: u8)
        ensures
            self is Count ==> r == clamp_int(self->Count_0 as int, 1, 32),
            self is Auto && available is Some ==> r == clamp_int(available->0 as int, 1, 32),
            self is Auto && available is None ==> r == 4,
    {
        match self {
            ThreadSetting::Count(n) => if *n < 1 {
                1
            } else if *n > 32 {
                32
            } else {
                *n
            },
            ThreadSetting::Auto(_) => match available {
                Some(p) => if p < 1 {
                    1
                } else if p > 32 {
                    32
                } else {
                    p as u8
                },
                None => 4,
            },
        }
    }
}

/// Settings of the duplicate finder.
#[derive(Clone, Copy, Debug, PartialEq, Eq, Structural)]
pub struct DuplicatesSettings {
    pub threshold: u32,
    pub hash_size: HashSize,
    pub hash_alg: HashAlgorithm,
    pub resize_filter: ResizeFilter,
    pub use_thumbnails_first: bool,
    pub max_files_per_album: u32,
}

impl Default for DuplicatesSettings {
    fn default() -> (r: Self)
        ensures
            r == (DuplicatesSettings {
                threshold: 32,
                hash_size: HashSize::S16x16,
                hash_alg: HashAlgorithm::Blockhash,
                resize_filter: ResizeFilter::Nearest,
                use_thumbnails_first: true,
                max_files_per_album: 0,
            }),
    {
        DuplicatesSettings {
            threshold: 32,
            hash_size: HashSize::default(),
            hash_alg: HashAlgorithm::default(),
            resize_filter: ResizeFilter::default(),
            use_thumbnails_first: true,
            max_files_per_album: 0,
        }
    }
}

/// A threshold given for a 256-bit hash, scaled to a hash of `bits` bits,
/// rounded half up, and at most `bits`.
pub open spec fn scaled_threshold(threshold: u32, bits: int) -> int {
    let scaled = (threshold as int * bits + 128) / 256;
    if scaled > bits {
        bits
    } else {
        scaled
    }
}

impl DuplicatesSettings {
    /// The threshold held to at most 128 and the album cap to at most
    /// 20000; the rest unchanged.
    pub fn clamp(self) -> (r: Self)
        ensures
            r.threshold == clamp_int(self.threshold as int, 0, 128),
            r.max_files_per_album == clamp_int(self.max_files_per_album as int, 0, 20000),
            r.hash_size == self.hash_size,
            r.hash_alg == self.hash_alg,
            r.resize_filter == self.resize_filter,
            r.use_thumbnails_first == self.use_thumbnails_first,
    {
        DuplicatesSettings {
            threshold: if self.threshold > 128 {
                128
            } else {
                self.threshold
            },
            hash_size: self.hash_size,
            hash_alg: self.hash_alg,
            resize_filter: self.resize_filter,
            use_thumbnails_first: self.use_thumbnails_first,
            max_files_per_album: if self.max_files_per_album > 20000 {
                20000
            } else {
                self.max_files_per_album
            },
        }
    }

    /// The user's threshold, which is given for a 256-bit hash, scaled to
    /// the bits of the configured hash size.
    pub fn effective_threshold(&self) -> (r: u32)
        ensures
            r == scaled_threshold(self.threshold, hash_side(self.hash_size) * hash_side(
                self.hash_size,
            )),
    {
        let bits = self.hash_size.bits();
        let t = self.threshold;
        assert(t as int * bits as int <= 0xFFFF_FFFFint * 1024) by (nonlinear_arith)
            requires
                bits <= 1024,
                t <= 0xFFFF_FFFF,
        ;
        let scaled: u64 = (self.threshold as u64 * bits as u64 + 128) / 256;
        if scaled > bits as u64 {
            bits
        } else {
            scaled as u32
        }
    }
}

/// Settings of the media transcoder.
#[derive(Clone, Debug)]
pub struct FfmpegSettings {
    pub threads: ThreadSetting,
    pub timeout_secs: u64,
    pub hwaccel: String,
    pub process_wait_poll_ms: u64,
}

impl Default for FfmpegSettings {
    fn default() -> (r: Self)
        ensures
            r.threads == ThreadSetting::Count(4),
            r.timeout_secs == 5,
            r.hwaccel@ == auto_word(),
            r.process_wait_poll_ms == 50,
    {
        let hwaccel = String::from_str("auto");
        proof {
            reveal_strlit("auto");
            assert(hwaccel@ =~= auto_word());
        }
        FfmpegSettings {
            threads: ThreadSetting::default(),
            timeout_secs: 5,
            hwaccel,
            process_wait_poll_ms: 50,
        }
    }
}

impl FfmpegSettings {
    /// The thread setting normalized, the timeout held to 1..=60 seconds,
    /// a blank acceleration name replaced by `auto`, and the poll interval
    /// held to 5..=200 ms.
    pub fn clamp(self) -> (r: Self)
        ensures
            normalized_count(self.threads) is Some ==> r.threads == ThreadSetting::Count(
                normalized_count(self.threads)->0,
            ),
            normalized_count(self.threads) is None ==> r.threads is Auto
                && r.threads->Auto_0@ == auto_word(),
            r.timeout_secs == clamp_int(self.timeout_secs as int, 1, 60),
            r.hwaccel@ == (if is_blank(self.hwaccel@) {
                auto_word()
            } else {
                self.hwaccel@
            }),
            r.process_wait_poll_ms == clamp_int(self.process_wait_poll_ms as int, 5, 200),
    {
        let hwaccel = if str_is_blank(self.hwaccel.as_str()) {
            let a = String::from_str("auto");
            proof {
                reveal_strlit("auto");
                assert(a@ =~= auto_word());
            }
            a
        } else {
            self.hwaccel.clone()
        };
        FfmpegSettings {
            threads: self.threads.normalize(),
            timeout_secs: if self.timeout_secs < 1 {
                1
            } else if self.timeout_secs > 60 {
                60
            } else {
                self.timeout_secs
            },
            hwaccel,
            process_wait_poll_ms: if self.process_wait_poll_ms < 5 {
                5
            } else if self.process_wait_poll_ms > 200 {
                200
            } else {
                self.process_wait_poll_ms
            },
        }
    }
}

/// Settings of the background preloading workers.
#[derive(Clone, Copy, Debug, PartialEq, Eq, Structural)]
pub struct PreloadSettings {
    pub thumb_workers: u8,
    pub meta_workers: u8,
    pub hash_workers: u8,
    pub progress_emit_ms: u64,
    pub thumb_hash_queue_delay_ms: u64,
    pub thumb_hash_only_after_idle: bool,
    pub thumb_hash_retry_on_thumb_change: bool,
}

impl Default for PreloadSettings {
    fn default() -> (r: Self)
        ensures
            r == (PreloadSettings {
                thumb_workers: 4,
                meta_workers: 4,
                hash_workers: 4,
                progress_emit_ms: 100,
                thumb_hash_queue_delay_ms: 10,
                thumb_hash_only_after_idle: true,
                thumb_hash_retry_on_thumb_change: true,
            }),
    {
        PreloadSettings {
            thumb_workers: 4,
            meta_workers: 4,
            hash_workers: 4,
            progress_emit_ms: 100,
            thumb_hash_queue_delay_ms: 10,
            thumb_hash_only_after_idle: true,
            thumb_hash_retry_on_thumb_change: true,
        }
    }
}

fn clamp_u8(v: u8, lo: u8, hi: u8) -> (r: u8)
    requires
        lo <= hi,
    ensures
        r == clamp_int(v as int, lo as int, hi as int),
{
    if v < lo {
        lo
    } else if v > hi {
        hi
    } else {
        v
    }
}

fn clamp_u64(v: u64, lo: u64, hi: u64) -> (r: u64)
    requires
        lo <= hi,
    ensures
        r == clamp_int(v as int, lo as int, hi as int),
{
    if v < lo {
        lo
    } else if v > hi {
        hi
    } else {
        v
    }
}

impl PreloadSettings {
    /// Each worker count held to 1..=32, the progress interval to
    /// 50..=1000 ms and the queue delay to at most 100 ms.
    pub fn clamp(self) -> (r: Self)
        ensures
            r.thumb_workers == clamp_int(self.thumb_workers as int, 1, 32),
            r.meta_workers == clamp_int(self.meta_workers as int, 1, 32),
            r.hash_workers == clamp_int(self.hash_workers as int, 1, 32),
            r.progress_emit_ms == clamp_int(self.progress_emit_ms as int, 50, 1000),
            r.thumb_hash_queue_delay_ms == clamp_int(self.thumb_hash_queue_delay_ms as int, 0, 100),
            r.thumb_hash_only_after_idle == self.thumb_hash_only_after_idle,
            r.thumb_hash_retry_on_thumb_change == self.thumb_hash_retry_on_thumb_change,
    {
        PreloadSettings {
            thumb_workers: clamp_u8(self.thumb_workers, 1, 32),
            meta_workers: clamp_u8(self.meta_workers, 1, 32),
            hash_workers: clamp_u8(self.hash_workers, 1, 32),
            progress_emit_ms: clamp_u64(self.progress_emit_ms, 50, 1000),
            thumb_hash_queue_delay_ms: clamp_u64(self.thumb_hash_queue_delay_ms, 0, 100),
            thumb_hash_only_after_idle: self.thumb_hash_only_after_idle,
            thumb_hash_retry_on_thumb_change: self.thumb_hash_retry_on_thumb_change,
        }
    }
}

/// Settings of media metadata extraction.
#[derive(Clone, Copy, Debug, PartialEq, Eq, Structural)]
pub struct MetadataSettings {
    pub ffmpeg_probe_timeout_secs: Option<u64>,
    pub parse_creation_time: bool,
}

impl Default for MetadataSettings {
    fn default() -> (r: Self)
        ensures
            r == (MetadataSettings { ffmpeg_probe_timeout_secs: None, parse_creation_time: true }),
    {
        MetadataSettings { ffmpeg_probe_timeout_secs: None, parse_creation_time: true }
    }
}

impl MetadataSettings {
    /// A probe timeout that is set is held to 1..=60 seconds; one that is
    /// not set takes the transcoder's timeout.
    pub fn clamp(self, ffmpeg_timeout: u64) -> (r: Self)
        ensures
            self.ffmpeg_probe_timeout_secs is Some ==> r.ffmpeg_probe_timeout_secs == Some(
                clamp_int(self.ffmpeg_probe_timeout_secs->0 as int, 1, 60) as u64,
            ),
            self.ffmpeg_probe_timeout_secs is None ==> r.ffmpeg_probe_timeout_secs == Some(
                ffmpeg_timeout,
            ),
            r.parse_creation_time == self.parse_creation_time,
    {
        let timeout = match self.ffmpeg_probe_timeout_secs {
            Some(t) => clamp_u64(t, 1, 60),
            None => ffmpeg_timeout,
        };
        MetadataSettings {
            ffmpeg_probe_timeout_secs: Some(timeout),
            parse_creation_time: self.parse_creation_time,
        }
    }
}

/// Settings of album maintenance.
#[derive(Clone, Copy, Debug, PartialEq, Eq, Structural)]
pub struct AlbumSettings {
    pub rename_cleanup_delay_secs: u64,
    pub move_rename_thumbs_and_meta: bool,
}

impl Default for AlbumSettings {
    fn default() -> (r: Self)
        ensures
            r == (AlbumSettings { rename_cleanup_delay_secs: 1, move_rename_thumbs_and_meta: true }),
    {
        AlbumSettings { rename_cleanup_delay_secs: 1, move_rename_thumbs_and_meta: true }
    }
}

impl AlbumSettings {
    /// The cleanup delay held to at most 10 seconds.
    pub fn clamp(self) -> (r: Self)
        ensures
            r.rename_cleanup_delay_secs == clamp_int(self.rename_cleanup_delay_secs as int, 0, 10),
            r.move_rename_thumbs_and_meta == self.move_rename_thumbs_and_meta,
    {
        AlbumSettings {
            rename_cleanup_delay_secs: clamp_u64(self.rename_cleanup_delay_secs, 0, 10),
            move_rename_thumbs_and_meta: self.move_rename_thumbs_and_meta,
        }
    }
}

/// Settings of privacy mode.
#[derive(Clone, Copy, Debug, PartialEq, Eq, Structural)]
pub struct PrivacySettings {
    pub enabled: bool,
    pub lockscreen_enabled: bool,
    pub confirm_open_enabled: bool,
}

impl Default for PrivacySettings {
    fn default() -> (r: Self)
        ensures
            r == (PrivacySettings {
                enabled: false,
                lockscreen_enabled: false,
                confirm_open_enabled: false,
            }),
    {
        PrivacySettings { enabled: false, lockscreen_enabled: false, confirm_open_enabled: false }
    }
}

impl PrivacySettings {
    /// Privacy mode turns on the lock screen and the confirmation before
    /// opening; without it both are left as set.
    pub fn clamp(self) -> (r: Self)
        ensures
            r.enabled == self.enabled,
            r.lockscreen_enabled == (self.enabled || self.lockscreen_enabled),
            r.confirm_open_enabled == (self.enabled || self.confirm_open_enabled),
    {
        let (lockscreen_enabled, confirm_open_enabled) = if self.enabled {
            (true, true)
        } else {
            (self.lockscreen_enabled, self.confirm_open_enabled)
        };
        PrivacySettings { enabled: self.enabled, lockscreen_enabled, confirm_open_enabled }
    }
}

} // verus!
