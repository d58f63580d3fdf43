//! Stem separation: kinds, cache layout and configuration.
//!
//! A track separates into four stems; their WAV files live in a cache
//! directory addressed by the SHA-256 of the track path, sixteen hex
//! digits deep.  The path arithmetic and the configuration are verified
//! here; decoding, the separation arithmetic and the existence probes on
//! the cache directory run in the host layer, which asks this module
//! where every file belongs.  Paths are carried as strings with `/` as
//! the separator.

use vstd::prelude::*;
use vstd::string::*;
use crate::hash::{sha256_hex, sha256_hex_of};

verus! {

/// The four stem types produced by the separation engine.
#[derive(Clone, Copy, Debug, PartialEq, Eq, Structural)]
pub enum StemKind {
    Vocals,
    Drums,
    Bass,
    Other,
}

impl StemKind {
    /// The stable lowercase name of the stem.
    pub fn as_str(&self) -> (r: &'static str)
        ensures
            *self is Vocals ==> r@ == "vocals"@,
            *self is Drums ==> r@ == "drums"@,
            *self is Bass ==> r@ == "bass"@,
            *self is Other ==> r@ == "other"@,
    {
        match self {
            StemKind::Vocals => "vocals",
            StemKind::Drums => "drums",
            StemKind::Bass => "bass",
            StemKind::Other => "other",
        }
    }

    /// All four stems, in their fixed order.
    pub fn all() -> (r: Vec<StemKind>)
        ensures
            r@ =~= seq![StemKind::Vocals, StemKind::Drums, StemKind::Bass, StemKind::Other],
    {
        let mut v: Vec<StemKind> = Vec::new();
        v.push(StemKind::Vocals);
        v.push(StemKind::Drums);
        v.push(StemKind::Bass);
        v.push(StemKind::Other);
        v
    }
}

/// Paths to the four cached stem WAV files for a given track.
pub struct StemPaths {
    pub vocals: String,
    pub drums: String,
    pub bass: String,
    pub other: String,
}

/// The cache directory a track's stems live in: the configured root, a
/// separator, and the first sixteen hex digits of the path digest.
pub open spec fn spec_track_cache_dir(cache_dir: Seq<char>, track_path: Seq<char>) -> Seq<char> {
    cache_dir + "/"@ + sha256_hex_of(track_path).subrange(0, 16)
}

/// The file one stem occupies inside a cache directory.
pub open spec fn spec_stem_file(dir: Seq<char>, name: Seq<char>) -> Seq<char> {
    dir + "/"@ + name + ".wav"@
}

/// Configuration for the stem separation engine.
pub struct StemSeparator {
    cache_dir: String,
    prefer_gpu: bool,
}

impl StemSeparator {
    /// The configured cache root.
    pub closed spec fn root(self) -> Seq<char> {
        self.cache_dir@
    }

    /// Whether GPU execution is preferred over CPU-only.
    pub closed spec fn gpu(self) -> bool {
        self.prefer_gpu
    }

    /// A separator caching under `cache_dir`, preferring the GPU.
    pub fn new(cache_dir: String) -> (r: StemSeparator)
        ensures
            r.root() == cache_dir@,
            r.gpu(),
    {
        StemSeparator { cache_dir, prefer_gpu: true }
    }

    pub fn set_prefer_gpu(&mut self, prefer: bool)
        ensures
            final(self).root() == old(self).root(),
            final(self).gpu() == prefer,
    {
        self.prefer_gpu = prefer;
    }

    pub fn prefer_gpu(&self) -> (r: bool)
        ensures
            r == self.gpu(),
    {
        self.prefer_gpu
    }

    /// The cache directory for a track, keyed by its path digest.
    pub fn track_cache_dir(&self, track_path: &str) -> (r: String)
        ensures
            r@ == spec_track_cache_dir(self.root(), track_path@),
    {
        let digest = sha256_hex(track_path);
        let short = digest.as_str().substring_char(0, 16);
        let mut dir = self.cache_dir.clone();
        dir.append("/");
        dir.append(short);
        dir
    }

    /// The expected stem file path inside a cache directory.
    pub fn stem_path(dir: &String, kind: StemKind) -> (r: String)
        ensures
            kind is Vocals ==> r@ == spec_stem_file(dir@, "vocals"@),
            kind is Drums ==> r@ == spec_stem_file(dir@, "drums"@),
            kind is Bass ==> r@ == spec_stem_file(dir@, "bass"@),
            kind is Other ==> r@ == spec_stem_file(dir@, "other"@),
    {
        let mut path = dir.clone();
        path.append("/");
        path.append(kind.as_str());
        path.append(".wav");
        path
    }

    /// All four stem paths a track is expected to cache; the host probes
    /// these for existence.
    pub fn expected_paths(&self, track_path: &str) -> (r: StemPaths)
        ensures
            ({
                let dir = spec_track_cache_dir(self.root(), track_path@);
                &&& r.vocals@ == spec_stem_file(dir, "vocals"@)
                &&& r.drums@ == spec_stem_file(dir, "drums"@)
                &&& r.bass@ == spec_stem_file(dir, "bass"@)
                &&& r.other@ == spec_stem_file(dir, "other"@)
            }),
    {
        let dir = self.track_cache_dir(track_path);
        StemPaths {
            vocals: StemSeparator::stem_path(&dir, StemKind::Vocals),
            drums: StemSeparator::stem_path(&dir, StemKind::Drums),
            bass: StemSeparator::stem_path(&dir, StemKind::Bass),
            other: StemSeparator::stem_path(&dir, StemKind::Other),
        }
    }
}

} // verus!
