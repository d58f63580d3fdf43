//! Lyrics monitor: the playback-clock poller's decisions.
//!
//! Every tick the monitor converts the frame clock to milliseconds,
//! searches the time-sorted lyric list for the line now active, and emits
//! an event exactly when the active line changed.  The polling thread and
//! the event sink live in the host layer; the conversion, the search and
//! the change detection are verified here.

use vstd::prelude::*;
use crate::lyrics::{LyricsLine, sorted_by_timestamp};
use crate::control::{PlaybackControl, NO_ACTIVE_LYRIC};

verus! {

/// Payload of a lyric-change event: nothing when no line is active.
pub struct LyricsEventPayload {
    pub index: Option<usize>,
    pub timestamp: Option<u32>,
    pub text: Option<String>,
}

/// The playback clock in milliseconds: `frame * 1000 / rate`, truncated
/// to the 32 bits the atomics carry; a zero rate counts as one.
pub open spec fn spec_now_ms(frame: u32, rate: u32) -> u32 {
    let r = if rate >= 1 {
        rate as int
    } else {
        1
    };
    ((frame * 1000 / r) % 0x1_0000_0000) as u32
}

/// Converts the frame clock to milliseconds.
pub fn now_ms(frame: u32, rate: u32) -> (r: u32)
    ensures
        r == spec_now_ms(frame, rate),
{
    let rate64 = if rate >= 1 {
        rate as u64
    } else {
        1u64
    };
    let q = (frame as u64) * 1000 / rate64;
    (q % 0x1_0000_0000) as u32
}

/// How many lines start at or before `now`.
pub open spec fn lines_at_or_before(lines: Seq<LyricsLine>, now: u32) -> nat
    decreases lines.len(),
{
    if lines.len() == 0 {
        0
    } else if lines.last().timestamp <= now {
        lines.len()
    } else {
        lines_at_or_before(lines.drop_last(), now)
    }
}

/// The index of the active line: the last one at or before `now`, none
/// when the first line is still ahead.
pub open spec fn spec_active_index(lines: Seq<LyricsLine>, now: u32) -> Option<int> {
    let n = lines_at_or_before(lines, now);
    if n == 0 {
        None
    } else {
        Some(n - 1)
    }
}

/// In a sorted list, `lines_at_or_before` counts an actual prefix.
pub proof fn lemma_lines_at_or_before(lines: Seq<LyricsLine>, now: u32)
    requires
        sorted_by_timestamp(lines),
    ensures
        lines_at_or_before(lines, now) <= lines.len(),
        forall|i: int|
            0 <= i < lines_at_or_before(lines, now) ==> (#[trigger] lines[i]).timestamp <= now,
        forall|i: int|
            lines_at_or_before(lines, now) <= i < lines.len() ==> (#[trigger] lines[i]).timestamp
                > now,
    decreases lines.len(),
{
    if lines.len() > 0 {
        let d = lines.drop_last();
        assert(forall|i: int| 0 <= i < d.len() ==> #[trigger] d[i] == lines[i]);
        if lines.last().timestamp <= now {
            assert(forall|i: int|
                0 <= i < lines.len() ==> (#[trigger] lines[i]).timestamp <= now) by {
                assert(forall|i: int|
                    0 <= i < lines.len() - 1 ==> (#[trigger] lines[i]).timestamp <= lines[
                        lines.len() - 1
                    ].timestamp);
            }
        } else {
            assert(sorted_by_timestamp(d));
            lemma_lines_at_or_before(d, now);
            assert(forall|i: int|
                0 <= i < d.len() ==> (#[trigger] lines[i]).timestamp == d[i].timestamp);
        }
    }
}

/// Binary search for the active line in a time-sorted list.
pub fn active_lyric_index(lines: &Vec<LyricsLine>, now: u32) -> (r: Option<usize>)
    requires
        sorted_by_timestamp(lines@),
    ensures
        r is Some <==> spec_active_index(lines@, now) is Some,
        r matches Some(k) ==> spec_active_index(lines@, now) == Some(k as int) && k < lines@.len(),
{
    proof {
        lemma_lines_at_or_before(lines@, now);
    }
    if lines.len() == 0 || lines[0].timestamp > now {
        return None;
    }
    let mut lo: usize = 0;
    let mut hi: usize = lines.len();
    while hi - lo > 1
        invariant
            lo < hi <= lines@.len(),
            lines@[lo as int].timestamp <= now,
            hi < lines@.len() ==> lines@[hi as int].timestamp > now,
            sorted_by_timestamp(lines@),
        decreases hi - lo,
    {
        let mid = lo + (hi - lo) / 2;
        if lines[mid].timestamp <= now {
            lo = mid;
        } else {
            hi = mid;
        }
    }
    proof {
        let n = lines_at_or_before(lines@, now) as int;
        assert(lo < n);
        if n - 1 > lo {
            assert(hi < lines@.len());
            assert(lines@[hi as int].timestamp <= now);
            assert(false);
        }
    }
    Some(lo)
}

/// One monitor tick: reads the clock, finds the active line and, when it
/// differs from the one last announced, records it and returns the event
/// to emit; `None` means stay quiet.
pub fn lyrics_poll_step(control: &mut PlaybackControl, lines: &Vec<LyricsLine>) -> (r: Option<
    LyricsEventPayload,
>)
    requires
        sorted_by_timestamp(lines@),
        lines@.len() < 0xFFFF_FFFF,
    ensures
        ({
            let now = spec_now_ms(old(control).frame(), old(control).rate());
            let active = spec_active_index(lines@, now);
            let code = match active {
                Some(i) => i as u32,
                None => NO_ACTIVE_LYRIC,
            };
            &&& *final(control) == (PlaybackControl { active_lyric: code, ..*old(control) })
            &&& (r is Some <==> code != old(control).lyric())
            &&& (r matches Some(p) ==> match active {
                Some(i) => p.index == Some(i as usize) && p.timestamp == Some(
                    lines@[i].timestamp,
                ) && (p.text matches Some(t) && t@ == lines@[i].text@),
                None => p.index is None && p.timestamp is None && p.text is None,
            })
        }),
{
    let frame = control.current_frame();
    let rate = control.output_rate();
    let now = now_ms(frame, rate);
    let active = active_lyric_index(lines, now);
    let code = match active {
        Some(i) => {
            proof {
                lemma_lines_at_or_before(lines@, now);
            }
            i as u32
        },
        None => NO_ACTIVE_LYRIC,
    };
    let previous = control.active_lyric();
    control.set_active_lyric(code);
    if code == previous {
        return None;
    }
    match active {
        Some(i) => Some(LyricsEventPayload {
            index: Some(i),
            timestamp: Some(lines[i].timestamp),
            text: Some(lines[i].text.clone()),
        }),
        None => Some(LyricsEventPayload { index: None, timestamp: None, text: None }),
    }
}

} // verus!
