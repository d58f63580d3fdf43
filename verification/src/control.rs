//! Playback control plane.
//!
//! The decisions of the playback engine are gathered here as a state
//! machine over plain values: transport state, clamped volume and pre-amp
//! words, the pending-seek handshake, the producer's end-of-track and
//! backpressure choices, and the two-stage gapless hand-off.  The host layer
//! owns the threads, the decoded PCM and the device stream; it calls these
//! transitions and performs the returned actions.
//!
//! Frame positions are 32-bit as in the atomics they travel through; the
//! gapless trigger fires once playback progress reaches 95 percent, stated
//! here as `20 * frame >= 19 * total_frames`.

use vstd::prelude::*;
use crate::bits::{clamp_bits, spec_clamp_bits, f32_key, lemma_f32_key_values};

verus! {

/// Sentinel meaning no seek is pending.
pub const NO_PENDING_SEEK: u32 = 0xFFFF_FFFF;

/// Sentinel meaning no lyric line is active.
pub const NO_ACTIVE_LYRIC: u32 = 0xFFFF_FFFF;

/// Bit pattern of 0.0, the lower volume bound.
pub const VOLUME_MIN_BITS: u32 = 0x0000_0000;

/// Bit pattern of 1.0, the upper volume bound.
pub const VOLUME_MAX_BITS: u32 = 0x3F80_0000;

/// Bit pattern of -24.0, the lower pre-amp bound in dB.
pub const PREAMP_MIN_BITS: u32 = 0xC1C0_0000;

/// Bit pattern of 24.0, the upper pre-amp bound in dB.
pub const PREAMP_MAX_BITS: u32 = 0x41C0_0000;

/// Most frames the producer copies into the ring per iteration.
pub const PRODUCER_CHUNK_FRAMES: usize = 256;

/// Control state of the playback engine.
pub struct PlaybackControl {
    pub playing: bool,
    pub should_stop: bool,
    pub volume_bits: u32,
    pub preamp_db_bits: u32,
    pub output_rate_hz: u32,
    pub seek_frame: u32,
    pub current_frame: u32,
    pub total_frames: u32,
    pub next_track: Option<String>,
    pub preloaded_ready: bool,
    pub lookahead_started: bool,
    pub lookahead_completed: bool,
    pub active_lyric: u32,
}

impl PlaybackControl {
    pub open spec fn playing(self) -> bool {
        self.playing
    }

    pub open spec fn should_stop(self) -> bool {
        self.should_stop
    }

    pub open spec fn volume(self) -> u32 {
        self.volume_bits
    }

    pub open spec fn preamp(self) -> u32 {
        self.preamp_db_bits
    }

    pub open spec fn rate(self) -> u32 {
        self.output_rate_hz
    }

    pub open spec fn seek(self) -> u32 {
        self.seek_frame
    }

    pub open spec fn frame(self) -> u32 {
        self.current_frame
    }

    pub open spec fn total(self) -> u32 {
        self.total_frames
    }

    pub open spec fn next(self) -> Option<String> {
        self.next_track
    }

    pub open spec fn preloaded(self) -> bool {
        self.preloaded_ready
    }

    pub open spec fn started(self) -> bool {
        self.lookahead_started
    }

    pub open spec fn completed(self) -> bool {
        self.lookahead_completed
    }

    pub open spec fn lyric(self) -> u32 {
        self.active_lyric
    }

    /// Control validity: the output rate is a real rate.
    pub open spec fn wf(self) -> bool {
        self.rate() >= 1
    }

    /// Fresh engine: paused, full volume, flat pre-amp, 48 kHz, nothing
    /// loaded or armed.
    pub fn new() -> (r: PlaybackControl)
        ensures
            r.wf(),
            !r.playing(),
            !r.should_stop(),
            r.volume() == VOLUME_MAX_BITS,
            r.preamp() == 0x0000_0000u32,
            r.rate() == 48000,
            r.seek() == 0,
            r.frame() == 0,
            r.total() == 0,
            r.next() is None,
            !r.preloaded(),
            !r.started(),
            !r.completed(),
            r.lyric() == NO_ACTIVE_LYRIC,
    {
        PlaybackControl {
            playing: false,
            should_stop: false,
            volume_bits: VOLUME_MAX_BITS,
            preamp_db_bits: 0,
            output_rate_hz: 48000,
            seek_frame: 0,
            current_frame: 0,
            total_frames: 0,
            next_track: None,
            preloaded_ready: false,
            lookahead_started: false,
            lookahead_completed: false,
            active_lyric: NO_ACTIVE_LYRIC,
        }
    }

    /// Starts playback; the callback fills real samples from now on.
    pub fn play(&mut self)
        ensures
            *final(self) == (PlaybackControl { playing: true, ..*old(self) }),
    {
        self.playing = true;
    }

    /// Pauses playback; the callback fills silence from now on.
    pub fn pause(&mut self)
        ensures
            *final(self) == (PlaybackControl { playing: false, ..*old(self) }),
    {
        self.playing = false;
    }

    /// Stores the volume word clamped into [0.0, 1.0].
    pub fn set_volume_bits(&mut self, volume: u32)
        ensures
            *final(self) == (PlaybackControl {
                volume_bits: spec_clamp_bits(volume, VOLUME_MIN_BITS, VOLUME_MAX_BITS),
                ..*old(self)
            }),
            f32_key(final(self).volume()) >= f32_key(VOLUME_MIN_BITS),
            f32_key(final(self).volume()) <= f32_key(VOLUME_MAX_BITS),
    {
        proof {
            lemma_f32_key_values(VOLUME_MIN_BITS);
            lemma_f32_key_values(VOLUME_MAX_BITS);
        }
        self.volume_bits = clamp_bits(volume, VOLUME_MIN_BITS, VOLUME_MAX_BITS);
    }

    /// Stores the pre-amp word clamped into [-24.0, 24.0] dB.
    pub fn set_preamp_bits(&mut self, preamp_db: u32)
        ensures
            *final(self) == (PlaybackControl {
                preamp_db_bits: spec_clamp_bits(preamp_db, PREAMP_MIN_BITS, PREAMP_MAX_BITS),
                ..*old(self)
            }),
            f32_key(final(self).preamp()) >= f32_key(PREAMP_MIN_BITS),
            f32_key(final(self).preamp()) <= f32_key(PREAMP_MAX_BITS),
    {
        proof {
            lemma_f32_key_values(PREAMP_MIN_BITS);
            lemma_f32_key_values(PREAMP_MAX_BITS);
        }
        self.preamp_db_bits = clamp_bits(preamp_db, PREAMP_MIN_BITS, PREAMP_MAX_BITS);
    }

    pub fn volume_bits(&self) -> (r: u32)
        ensures
            r == self.volume(),
    {
        self.volume_bits
    }

    pub fn preamp_bits(&self) -> (r: u32)
        ensures
            r == self.preamp(),
    {
        self.preamp_db_bits
    }

    pub fn is_playing(&self) -> (r: bool)
        ensures
            r == self.playing(),
    {
        self.playing
    }

    pub fn output_rate(&self) -> (r: u32)
        ensures
            r == self.rate(),
    {
        self.output_rate_hz
    }

    pub fn current_frame(&self) -> (r: u32)
        ensures
            r == self.frame(),
    {
        self.current_frame
    }

    pub fn total_frames(&self) -> (r: u32)
        ensures
            r == self.total(),
    {
        self.total_frames
    }

    pub fn active_lyric(&self) -> (r: u32)
        ensures
            r == self.lyric(),
    {
        self.active_lyric
    }

    pub fn set_active_lyric(&mut self, index: u32)
        ensures
            *final(self) == (PlaybackControl { active_lyric: index, ..*old(self) }),
    {
        self.active_lyric = index;
    }

    pub fn has_next_track(&self) -> (r: bool)
        ensures
            r == (self.next() is Some),
    {
        self.next_track.is_some()
    }

    /// Requests a jump to `frame`: the producer observes it on its next
    /// iteration; the active lyric is forgotten until the clock settles.
    pub fn seek_to_frame(&mut self, frame: u32)
        ensures
            *final(self) == (PlaybackControl {
                seek_frame: frame,
                current_frame: frame,
                active_lyric: NO_ACTIVE_LYRIC,
                ..*old(self)
            }),
    {
        self.seek_frame = frame;
        self.current_frame = frame;
        self.active_lyric = NO_ACTIVE_LYRIC;
    }

    /// Arms or disarms the gapless hand-off; any cached preload and the
    /// lookahead flags are dropped either way.
    pub fn set_next_track(&mut self, path: Option<String>)
        ensures
            *final(self) == (PlaybackControl {
                next_track: path,
                preloaded_ready: false,
                lookahead_started: false,
                lookahead_completed: false,
                ..*old(self)
            }),
    {
        self.next_track = path;
        self.preloaded_ready = false;
        self.lookahead_started = false;
        self.lookahead_completed = false;
    }

    /// Tears down for a track change: stop the producer, pause, rewind the
    /// clock and forget the lookahead.  The host joins its threads and
    /// decodes the new file before calling `finish_load`.
    pub fn begin_load(&mut self)
        ensures
            *final(self) == (PlaybackControl {
                playing: false,
                should_stop: true,
                seek_frame: 0,
                current_frame: 0,
                preloaded_ready: false,
                lookahead_started: false,
                lookahead_completed: false,
                active_lyric: NO_ACTIVE_LYRIC,
                ..*old(self)
            }),
    {
        self.playing = false;
        self.should_stop = true;
        self.seek_frame = 0;
        self.current_frame = 0;
        self.preloaded_ready = false;
        self.lookahead_started = false;
        self.lookahead_completed = false;
        self.active_lyric = NO_ACTIVE_LYRIC;
    }

    /// Installs the decoded track's shape and releases the new producer.
    pub fn finish_load(&mut self, output_rate: u32, total_frames: u32)
        requires
            output_rate >= 1,
        ensures
            final(self).wf(),
            *final(self) == (PlaybackControl {
                should_stop: false,
                output_rate_hz: output_rate,
                total_frames: total_frames,
                ..*old(self)
            }),
    {
        self.output_rate_hz = output_rate;
        self.total_frames = total_frames;
        self.should_stop = false;
    }

    /// The path the producer should decode ahead, when a preload is due:
    /// the lookahead is armed, not yet completed, a next track is set and
    /// nothing is cached yet.
    pub fn preload_request(&self) -> (r: Option<String>)
        ensures
            r is Some <==> (self.started() && !self.completed() && self.next() is Some
                && !self.preloaded()),
            r matches Some(p) ==> self.next() matches Some(q) && p@ == q@,
    {
        if self.lookahead_started && !self.lookahead_completed && !self.preloaded_ready {
            match &self.next_track {
                Some(path) => Some(path.clone()),
                None => None,
            }
        } else {
            None
        }
    }

    /// Records that the producer finished decoding the next track.
    pub fn complete_preload(&mut self)
        ensures
            *final(self) == (PlaybackControl {
                preloaded_ready: true,
                lookahead_started: false,
                lookahead_completed: true,
                ..*old(self)
            }),
    {
        self.preloaded_ready = true;
        self.lookahead_started = false;
        self.lookahead_completed = true;
    }

    /// Consumes a pending seek: hands the producer its new read cursor,
    /// clamped to the end of the track, and tells it to clear the ring.
    pub fn consume_seek(&mut self, read_frame: u32) -> (r: (u32, bool))
        ensures
            *final(self) == (PlaybackControl { seek_frame: NO_PENDING_SEEK, ..*old(self) }),
            old(self).seek() == NO_PENDING_SEEK ==> r == (read_frame, false),
            old(self).seek() != NO_PENDING_SEEK ==> r == (
                if old(self).seek() < old(self).total() {
                    old(self).seek()
                } else {
                    old(self).total()
                },
                true,
            ),
    {
        let requested = self.seek_frame;
        self.seek_frame = NO_PENDING_SEEK;
        if requested != NO_PENDING_SEEK {
            let clamped = if requested < self.total_frames {
                requested
            } else {
                self.total_frames
            };
            (clamped, true)
        } else {
            (read_frame, false)
        }
    }

    /// Swaps the cached next track in at end of stream: the clock restarts
    /// at zero, the new length is installed, and the hand-off disarms.
    pub fn take_preloaded(&mut self, new_total_frames: u32)
        requires
            old(self).preloaded(),
        ensures
            *final(self) == (PlaybackControl {
                current_frame: 0,
                total_frames: new_total_frames,
                next_track: None,
                preloaded_ready: false,
                lookahead_started: false,
                lookahead_completed: false,
                ..*old(self)
            }),
    {
        self.current_frame = 0;
        self.total_frames = new_total_frames;
        self.next_track = None;
        self.preloaded_ready = false;
        self.lookahead_started = false;
        self.lookahead_completed = false;
    }

    /// Whether the producer should end its loop.
    pub fn stop_requested(&self) -> (r: bool)
        ensures
            r == self.should_stop(),
    {
        self.should_stop
    }

    /// Whether a preload is cached and ready to swap in.
    pub fn preloaded_ready(&self) -> (r: bool)
        ensures
            r == self.preloaded(),
    {
        self.preloaded_ready
    }

    /// Advances the playback clock by the frames the callback just wrote,
    /// wrapping as the 32-bit counter does.
    pub fn advance_frames(&mut self, frames: u32)
        ensures
            *final(self) == (PlaybackControl {
                current_frame: ((old(self).frame() + frames) % 0x1_0000_0000) as u32,
                ..*old(self)
            }),
    {
        self.current_frame = self.current_frame.wrapping_add(frames);
    }

    /// Frames the producer should copy this iteration: what fits in the
    /// ring, capped at the chunk size that keeps wakeups cheap without
    /// queueing latency.
    pub fn push_budget(vacant_samples: usize, channels: usize) -> (r: usize)
        requires
            channels >= 1,
        ensures
            r == if vacant_samples / channels < PRODUCER_CHUNK_FRAMES {
                vacant_samples / channels
            } else {
                PRODUCER_CHUNK_FRAMES
            },
    {
        let frames = vacant_samples / channels;
        if frames < PRODUCER_CHUNK_FRAMES {
            frames
        } else {
            PRODUCER_CHUNK_FRAMES
        }
    }

    /// The gapless arming relation: whether the trigger fires and how the
    /// armed flag moves, as a function of the clock the callback read.
    pub open spec fn arm_rel(pre: PlaybackControl, frame: u32, post: PlaybackControl, fired: bool)
        -> bool {
        let eligible = pre.total() > 0 && !pre.completed() && pre.next() is Some && 20 * (
        frame as int) >= 19 * (pre.total() as int);
        &&& fired == (eligible && !pre.started())
        &&& post == (PlaybackControl {
            lookahead_started: pre.started() || eligible,
            ..pre
        })
    }

    /// Checks the 95-percent mark and arms the lookahead; fires at most
    /// once per arming, as `lemma_lookahead_single_fire` states.
    pub fn arm_lookahead(&mut self, frame: u32) -> (fired: bool)
        ensures
            PlaybackControl::arm_rel(*old(self), frame, *final(self), fired),
    {
        if self.total_frames == 0 {
            return false;
        }
        if self.lookahead_completed {
            return false;
        }
        if self.next_track.is_none() {
            return false;
        }
        if (frame as u64) * 20 < (self.total_frames as u64) * 19 {
            return false;
        }
        let was_started = self.lookahead_started;
        self.lookahead_started = true;
        !was_started
    }
}

/// The gapless trigger is single-fire: across any two successive arming
/// checks, at most one can have fired, however the clock advanced in
/// between.
pub proof fn lemma_lookahead_single_fire(
    s0: PlaybackControl,
    s1: PlaybackControl,
    s2: PlaybackControl,
    f1: u32,
    f2: u32,
    fired1: bool,
    fired2: bool,
)
    requires
        PlaybackControl::arm_rel(s0, f1, s1, fired1),
        PlaybackControl::arm_rel(s1, f2, s2, fired2),
    ensures
        !(fired1 && fired2),
{
}

} // verus!
