//! Library path and metadata string logic.
//!
//! The scanner and caches reason about track paths as strings with `/`
//! separators: which files are audio, where a track's sidecar and cached
//! lyrics live, how a cover thumbnail becomes an asset URL, and how an
//! `Artist - Title` file name repairs missing tags.  The filesystem probes
//! and network fetches around these decisions run in the host layer.

use vstd::prelude::*;
use vstd::string::*;
use crate::lyrics::{spec_trim, trim_range};
use crate::reverb::{eq_ignore_case, range_matches};
use crate::hash::{sha256_hex, sha256_hex_of};

verus! {

/// Embedded cover art lifted out of a track's tags: its MIME type and
/// raw bytes.
#[derive(Debug, Clone)]
pub struct CoverArt {
    pub media_type: String,
    pub data: Vec<u8>,
}

/// Index of the last occurrence of `c` in `s`, or -1 when absent.
pub open spec fn last_index_of(s: Seq<char>, c: char) -> int
    decreases s.len(),
{
    if s.len() == 0 {
        -1
    } else if s.last() == c {
        s.len() - 1
    } else {
        last_index_of(s.drop_last(), c)
    }
}

/// What `last_index_of` finds: the unique last occurrence, or nothing.
pub proof fn lemma_last_index_of(s: Seq<char>, c: char)
    ensures
        last_index_of(s, c) == -1 ==> forall|i: int| 0 <= i < s.len() ==> s[i] != c,
        last_index_of(s, c) != -1 ==> {
            let r = last_index_of(s, c);
            0 <= r < s.len() && s[r] == c && forall|i: int| r < i < s.len() ==> s[i] != c
        },
    decreases s.len(),
{
    if s.len() > 0 && s.last() != c {
        lemma_last_index_of(s.drop_last(), c);
        let d = s.drop_last();
        assert(forall|i: int| 0 <= i < s.len() - 1 ==> #[trigger] s[i] == d[i]);
    }
}

/// Scans `s` between `from` and `to` for the last occurrence of `c`.
fn find_last_in(s: &str, from: usize, to: usize, c: char) -> (r: Option<usize>)
    requires
        from <= to <= s@.len(),
    ensures
        match r {
            Some(k) => from <= k < to && last_index_of(s@.subrange(from as int, to as int), c)
                == k - from,
            None => last_index_of(s@.subrange(from as int, to as int), c) == -1,
        },
{
    let ghost sub = s@.subrange(from as int, to as int);
    let mut i = to;
    while i > from
        invariant
            from <= i <= to <= s@.len(),
            sub == s@.subrange(from as int, to as int),
            forall|j: int| i <= j < to ==> s@[j] != c,
        decreases i,
    {
        if s.get_char(i - 1) == c {
            proof {
                lemma_last_index_of(sub, c);
                assert(sub[i - 1 - from] == s@[i - 1]);
                assert(forall|j: int| i - from <= j < sub.len() ==> #[trigger] sub[j] != c);
            }
            return Some(i - 1);
        }
        i -= 1;
    }
    proof {
        lemma_last_index_of(sub, c);
        assert(forall|j: int| 0 <= j < sub.len() ==> #[trigger] sub[j] != c);
    }
    None
}

/// Where the file name of a path starts: just past the last separator.
pub open spec fn spec_name_start(s: Seq<char>) -> int {
    last_index_of(s, '/') + 1
}

/// Where the file stem ends: at the extension dot, when the name has one
/// past its first character; at the end of the path otherwise.
pub open spec fn spec_stem_end(s: Seq<char>) -> int {
    let ns = spec_name_start(s);
    let nd = last_index_of(s.subrange(ns, s.len() as int), '.');
    if nd > 0 {
        ns + nd
    } else {
        s.len() as int
    }
}

/// The extension of a path's file name, when it has one.
pub open spec fn spec_extension(s: Seq<char>) -> Option<Seq<char>> {
    let ns = spec_name_start(s);
    let nd = last_index_of(s.subrange(ns, s.len() as int), '.');
    if nd > 0 {
        Some(s.subrange(ns + nd + 1, s.len() as int))
    } else {
        None
    }
}

/// The sidecar lyrics path of a track: the same directory and stem with
/// the `lrc` extension; nothing for a path with an empty file name.
pub open spec fn spec_lrc_sibling(s: Seq<char>) -> Option<Seq<char>> {
    if spec_name_start(s) == s.len() {
        None
    } else {
        Some(s.subrange(0, spec_stem_end(s)) + ".lrc"@)
    }
}

/// Computes the name-start and stem-end boundaries of a path.
fn path_boundaries(path: &str) -> (r: (usize, usize))
    ensures
        r.0 == spec_name_start(path@),
        r.1 == spec_stem_end(path@),
        r.0 <= path@.len(),
        r.1 <= path@.len(),
{
    let n = path.unicode_len();
    proof {
        assert(path@.subrange(0, n as int) =~= path@);
    }
    let ns = match find_last_in(path, 0, n, '/') {
        Some(k) => k + 1,
        None => 0,
    };
    let se = match find_last_in(path, ns, n, '.') {
        Some(k) => {
            if k > ns {
                k
            } else {
                n
            }
        },
        None => n,
    };
    (ns, se)
}

/// The sidecar `.lrc` path next to a track file.
pub fn lrc_sibling_path(track_path: &str) -> (r: Option<String>)
    ensures
        r is Some <==> spec_lrc_sibling(track_path@) is Some,
        r matches Some(p) ==> spec_lrc_sibling(track_path@) == Some(p@),
{
    let n = track_path.unicode_len();
    let (ns, se) = path_boundaries(track_path);
    if ns == n {
        return None;
    }
    let mut out: String = track_path.substring_char(0, se).to_owned();
    out.append(".lrc");
    Some(out)
}

/// The lyrics cache directory under an application data directory.
pub fn lyrics_cache_dir(base_dir: &str) -> (r: String)
    ensures
        r@ == base_dir@ + "/.lyrics_cache"@,
{
    let mut out: String = base_dir.to_owned();
    out.append("/.lyrics_cache");
    out
}

/// The content-addressed cached lyrics file of a track.
pub fn cached_lyrics_path(base_dir: &str, track_path: &str) -> (r: String)
    ensures
        r@ == base_dir@ + "/.lyrics_cache/"@ + sha256_hex_of(track_path@) + ".lrc"@,
{
    let mut out: String = base_dir.to_owned();
    out.append("/.lyrics_cache/");
    let digest = sha256_hex(track_path);
    out.append(digest.as_str());
    out.append(".lrc");
    out
}

/// Picks the lyrics file for a track, the sidecar first and the cache
/// second, from the host's report of which of the two exists.
pub fn find_lrc_for_track(
    track_path: &str,
    sibling_is_file: bool,
    cached_is_file: bool,
    cache_base: &str,
) -> (r: Option<String>)
    ensures
        sibling_is_file && spec_lrc_sibling(track_path@) is Some ==> r is Some && (
        r matches Some(p) ==> spec_lrc_sibling(track_path@) == Some(p@)),
        (!sibling_is_file || spec_lrc_sibling(track_path@) is None) && cached_is_file ==> (
        r matches Some(p) ==> p@ == cache_base@ + "/.lyrics_cache/"@ + sha256_hex_of(track_path@)
            + ".lrc"@) && r is Some,
        (!sibling_is_file || spec_lrc_sibling(track_path@) is None) && !cached_is_file ==> r
            is None,
{
    if sibling_is_file {
        match lrc_sibling_path(track_path) {
            Some(p) => {
                return Some(p);
            },
            None => {
            },
        }
    }
    if cached_is_file {
        Some(cached_lyrics_path(cache_base, track_path))
    } else {
        None
    }
}

/// The content-addressed cover-art cache file of a track, under the
/// host's cache root.
pub fn cover_cache_path(cache_root: &str, track_path: &str) -> (r: String)
    ensures
        r@ == cache_root@ + "/"@ + sha256_hex_of(track_path@) + ".jpg"@,
{
    let mut out: String = cache_root.to_owned();
    out.append("/");
    let digest = sha256_hex(track_path);
    out.append(digest.as_str());
    out.append(".jpg");
    out
}

/// A path's characters with every backslash turned into a forward slash.
pub open spec fn spec_slashed(s: Seq<char>) -> Seq<char> {
    Seq::new(
        s.len(),
        |i: int|
            if s[i] == '\\' {
                '/'
            } else {
                s[i]
            },
    )
}

/// The asset URL the host shell serves a cached file under.
pub fn to_asset_url(path: &str) -> (r: String)
    ensures
        r@ == "asset://"@ + spec_slashed(path@),
{
    let n = path.unicode_len();
    let mut out: String = "asset://".to_owned();
    proof {
        assert(out@ =~= "asset://"@ + spec_slashed(path@).subrange(0, 0));
    }
    let mut i: usize = 0;
    while i < n
        invariant
            i <= n == path@.len(),
            out@ == "asset://"@ + spec_slashed(path@).subrange(0, i as int),
        decreases n - i,
    {
        if path.get_char(i) == '\\' {
            out.append("/");
        } else {
            let piece = path.substring_char(i, i + 1);
            out.append(piece);
        }
        proof {
            reveal_strlit("/");
            assert(out@ =~= "asset://"@ + spec_slashed(path@).subrange(0, i + 1));
        }
        i += 1;
    }
    proof {
        assert(spec_slashed(path@).subrange(0, n as int) =~= spec_slashed(path@));
    }
    out
}

/// The file names that count as a local cover image next to a track.
pub fn local_cover_names() -> (r: Vec<&'static str>)
    ensures
        r@.len() == 4,
        r@[0]@ == "cover.jpg"@,
        r@[1]@ == "cover.jpeg"@,
        r@[2]@ == "folder.jpg"@,
        r@[3]@ == "folder.jpeg"@,
{
    let mut v: Vec<&'static str> = Vec::new();
    v.push("cover.jpg");
    v.push("cover.jpeg");
    v.push("folder.jpg");
    v.push("folder.jpeg");
    v
}

/// The directory part of a track path, separator included; empty for a
/// bare file name.
pub fn parent_dir_prefix(track_path: &str) -> (r: String)
    ensures
        r@ == track_path@.subrange(0, spec_name_start(track_path@)),
{
    let (ns, _) = path_boundaries(track_path);
    track_path.substring_char(0, ns).to_owned()
}

/// Whether a path's extension marks one of the supported audio formats.
pub open spec fn spec_is_supported_audio(s: Seq<char>) -> bool {
    match spec_extension(s) {
        None => false,
        Some(e) => eq_ignore_case(e, "flac"@) || eq_ignore_case(e, "mp3"@) || eq_ignore_case(
            e,
            "m4a"@,
        ) || eq_ignore_case(e, "ogg"@) || eq_ignore_case(e, "wav"@),
    }
}

/// Tests a path against the supported audio extensions, ignoring case.
pub fn is_supported_audio_path(path: &str) -> (r: bool)
    ensures
        r == spec_is_supported_audio(path@),
{
    let n = path.unicode_len();
    let (ns, _) = path_boundaries(path);
    let ext_start = match find_last_in(path, ns, n, '.') {
        Some(k) => {
            if k > ns {
                k + 1
            } else {
                return false;
            }
        },
        None => {
            return false;
        },
    };
    proof {
        assert(path@.subrange(ext_start as int, n as int) =~= path@.subrange(
            spec_name_start(path@) + last_index_of(
                path@.subrange(spec_name_start(path@), path@.len() as int),
                '.',
            ) + 1,
            path@.len() as int,
        ));
    }
    range_matches(path, ext_start, n, "flac") || range_matches(path, ext_start, n, "mp3")
        || range_matches(path, ext_start, n, "m4a") || range_matches(path, ext_start, n, "ogg")
        || range_matches(path, ext_start, n, "wav")
}

/// A ` - ` separator window starting at `i`.
pub open spec fn dash_window(s: Seq<char>, i: int) -> bool {
    s[i] == ' ' && s[i + 1] == '-' && s[i + 2] == ' '
}

/// Where a ` - ` separator first splits a file stem, or -1.
pub open spec fn first_dash_sep(s: Seq<char>) -> int
    decreases s.len(),
{
    if s.len() < 3 {
        -1
    } else if s[0] == ' ' && s[1] == '-' && s[2] == ' ' {
        0
    } else {
        let r = first_dash_sep(s.drop_first());
        if r == -1 {
            -1
        } else {
            r + 1
        }
    }
}

/// What `first_dash_sep` finds: the first ` - ` window.
pub proof fn lemma_first_dash_sep(s: Seq<char>)
    ensures
        first_dash_sep(s) == -1 ==> forall|i: int|
            0 <= i && i + 2 < s.len() ==> !#[trigger] dash_window(s, i),
        first_dash_sep(s) != -1 ==> {
            let r = first_dash_sep(s);
            &&& 0 <= r
            &&& r + 2 < s.len()
            &&& dash_window(s, r)
            &&& forall|i: int| 0 <= i < r ==> !#[trigger] dash_window(s, i)
        },
    decreases s.len(),
{
    if s.len() >= 3 && !(s[0] == ' ' && s[1] == '-' && s[2] == ' ') {
        lemma_first_dash_sep(s.drop_first());
        let d = s.drop_first();
        assert(forall|i: int| 0 <= i < d.len() ==> #[trigger] d[i] == s[i + 1]);
        assert(forall|i: int|
            1 <= i && i + 2 < s.len() ==> (#[trigger] dash_window(s, i) <==> dash_window(
                d,
                i - 1,
            )));
    }
}

/// The artist and title a stem of the form `Artist - Title` denotes:
/// both sides of the first ` - `, trimmed, neither empty.
pub open spec fn spec_artist_title(s: Seq<char>) -> Option<(Seq<char>, Seq<char>)> {
    let d = first_dash_sep(s);
    if d < 0 {
        None
    } else {
        let artist = spec_trim(s.subrange(0, d));
        let title = spec_trim(s.subrange(d + 3, s.len() as int));
        if artist.len() == 0 || title.len() == 0 {
            None
        } else {
            Some((artist, title))
        }
    }
}

/// Splits an `Artist - Title` file stem into its repaired tag pair.
pub fn parse_artist_title_from_stem(stem: &str) -> (r: Option<(String, String)>)
    ensures
        r is Some <==> spec_artist_title(stem@) is Some,
        r matches Some(p) ==> spec_artist_title(stem@) == Some((p.0@, p.1@)),
{
    let n = stem.unicode_len();
    proof {
        assert(stem@.subrange(0, n as int) =~= stem@);
    }
    if n < 3 {
        proof {
            lemma_first_dash_sep(stem@);
        }
        return None;
    }
    let mut i: usize = 0;
    let mut sep: Option<usize> = None;
    while i < n - 2
        invariant_except_break
            sep is None,
        invariant
            n == stem@.len(),
            n >= 3,
            i <= n - 2,
            forall|j: int| 0 <= j < i ==> !#[trigger] dash_window(stem@, j),
        ensures
            i <= n - 2,
            sep matches Some(k) ==> 0 <= k && k + 2 < n && dash_window(stem@, k as int) && (forall|
                j: int,
            | 0 <= j < k ==> !#[trigger] dash_window(stem@, j)),
            sep is None ==> forall|j: int| 0 <= j && j + 2 < n ==> !#[trigger] dash_window(stem@, j),
        decreases n - i,
    {
        if stem.get_char(i) == ' ' && stem.get_char(i + 1) == '-' && stem.get_char(i + 2) == ' ' {
            sep = Some(i);
            proof {
                assert(dash_window(stem@, i as int));
            }
            break;
        }
        proof {
            assert(!dash_window(stem@, i as int));
        }
        i += 1;
    }
    proof {
        lemma_first_dash_sep(stem@);
    }
    let d = match sep {
        Some(k) => k,
        None => {
            return None;
        },
    };
    proof {
        assert(first_dash_sep(stem@) == d);
    }
    let (alo, ahi) = trim_range(stem, 0, d);
    let (tlo, thi) = trim_range(stem, d + 3, n);
    if alo == ahi || tlo == thi {
        return None;
    }
    let artist = stem.substring_char(alo, ahi).to_owned();
    let title = stem.substring_char(tlo, thi).to_owned();
    Some((artist, title))
}

/// Fills missing artist and title tags from the file stem and, when the
/// repair succeeded, clears the corrupted flag.
pub fn apply_filename_repair(
    stem: &str,
    title: &mut Option<String>,
    artist: &mut Option<String>,
    corrupted: &mut bool,
)
    ensures
        ({
            match spec_artist_title(stem@) {
                None => *final(title) == *old(title) && *final(artist) == *old(artist)
                    && *final(corrupted) == *old(corrupted),
                Some(p) => {
                    &&& (*old(artist) is None ==> (*final(artist) matches Some(a) && a@ == p.0))
                    &&& (*old(artist) is Some ==> *final(artist) == *old(artist))
                    &&& (*old(title) is None ==> (*final(title) matches Some(t) && t@ == p.1))
                    &&& (*old(title) is Some ==> *final(title) == *old(title))
                    &&& *final(corrupted) == false
                },
            }
        }),
{
    match parse_artist_title_from_stem(stem) {
        None => {
        },
        Some(pair) => {
            let (file_artist, file_title) = pair;
            if artist.is_none() {
                *artist = Some(file_artist);
            }
            if title.is_none() {
                *title = Some(file_title);
            }
            *corrupted = false;
        },
    }
}

} // verus!
