//! Reverb parameter store, geometry and presets.
//!
//! The reverb follows the classic parallel-comb/series-allpass topology:
//! eight combs and four allpasses per channel, the right channel offset by
//! a fixed stereo spread, all lengths scaled linearly from their 44.1 kHz
//! references.  The six user parameters travel as clamped 32-bit words with
//! a dirty handshake; named presets resolve case-insensitively from English
//! and Spanish aliases.  The sample arithmetic runs in the host layer.

use vstd::prelude::*;
use vstd::string::*;
use crate::bits::{clamp_bits, spec_clamp_bits, lemma_f32_key_values};
use crate::filters::{ZERO_BITS, ONE_BITS};
use crate::lyrics::{spec_trim, trim_range};

verus! {

/// Bit pattern of 200.0, the predelay bound in ms and the low-pass floor
/// in Hz.
pub const TWO_HUNDRED_BITS: u32 = 0x4348_0000;

/// Bit pattern of 20000.0 Hz, the low-pass ceiling.
pub const LOWPASS_MAX_BITS: u32 = 0x469C_4000;

/// Bit pattern of 0.5, the default for room size, damping and decay.
pub const HALF_BITS: u32 = 0x3F00_0000;

/// Bit pattern of 10.0 ms, the default predelay.
pub const TEN_BITS: u32 = 0x4120_0000;

/// Bit pattern of 8000.0 Hz, the default low-pass corner.
pub const EIGHT_K_BITS: u32 = 0x45FA_0000;

/// Samples added to every right-channel delay line to decorrelate the
/// channels.
pub const STEREO_SPREAD: usize = 23;

/// Comb-filter reference length at 44.1 kHz for each of the eight combs.
pub fn comb_length_ref(index: usize) -> (r: usize)
    requires
        index < 8,
    ensures
        r == spec_comb_length_ref(index as int),
{
    let table: [usize; 8] = [1116, 1188, 1277, 1356, 1422, 1491, 1557, 1617];
    table[index]
}

/// The eight Freeverb comb lengths at the 44.1 kHz reference rate.
pub open spec fn spec_comb_length_ref(index: int) -> usize {
    if index == 0 {
        1116usize
    } else if index == 1 {
        1188usize
    } else if index == 2 {
        1277usize
    } else if index == 3 {
        1356usize
    } else if index == 4 {
        1422usize
    } else if index == 5 {
        1491usize
    } else if index == 6 {
        1557usize
    } else {
        1617usize
    }
}

/// The four Freeverb allpass lengths at the 44.1 kHz reference rate.
pub open spec fn spec_allpass_length_ref(index: int) -> usize {
    if index == 0 {
        556usize
    } else if index == 1 {
        441usize
    } else if index == 2 {
        341usize
    } else {
        225usize
    }
}

/// Allpass-filter reference length at 44.1 kHz for each of the four
/// allpasses.
pub fn allpass_length_ref(index: usize) -> (r: usize)
    requires
        index < 4,
    ensures
        r == spec_allpass_length_ref(index as int),
{
    let table: [usize; 4] = [556, 441, 341, 225];
    table[index]
}

/// A reference length scaled linearly to the actual sample rate, floored
/// at one sample.
pub open spec fn spec_scaled_length(base: int, sample_rate_hz: u32) -> int {
    let scaled = base * sample_rate_hz / 44100;
    if scaled >= 1 {
        scaled
    } else {
        1
    }
}

/// Scales a delay-line reference length to a sample rate.
pub fn scaled_length(base: usize, sample_rate_hz: u32) -> (r: usize)
    requires
        base <= 2000,
        sample_rate_hz < 0x0200_0000,
    ensures
        r == spec_scaled_length(base as int, sample_rate_hz),
        r >= 1,
{
    proof {
        assert((base as int) * (sample_rate_hz as int) <= 2000 * 0x0200_0000) by (nonlinear_arith)
            requires
                base <= 2000,
                sample_rate_hz < 0x0200_0000,
        ;
    }
    let scaled = ((base as u64) * (sample_rate_hz as u64) / 44100) as usize;
    if scaled >= 1 {
        scaled
    } else {
        1
    }
}

/// Named preset: the six parameter words a preset installs.
#[derive(Clone, Copy)]
pub struct ReverbPreset {
    pub name: &'static str,
    pub room_size_bits: u32,
    pub damping_bits: u32,
    pub predelay_ms_bits: u32,
    pub lowpass_filter_bits: u32,
    pub decay_bits: u32,
    pub wet_mix_bits: u32,
}

/// Small studio: room 0.3, damping 0.6, predelay 5 ms, low-pass 8 kHz,
/// decay 0.3, wet 0.15.
pub open spec fn spec_preset_studio() -> ReverbPreset {
    ReverbPreset {
        name: "Estudio",
        room_size_bits: 0x3E99_999A,
        damping_bits: 0x3F19_999A,
        predelay_ms_bits: 0x40A0_0000,
        lowpass_filter_bits: 0x45FA_0000,
        decay_bits: 0x3E99_999A,
        wet_mix_bits: 0x3E19_999A,
    }
}

/// Large room: room 0.75, damping 0.4, predelay 20 ms, low-pass 6 kHz,
/// decay 0.6, wet 0.3.
pub open spec fn spec_preset_large_room() -> ReverbPreset {
    ReverbPreset {
        name: "Sala Grande",
        room_size_bits: 0x3F40_0000,
        damping_bits: 0x3ECC_CCCD,
        predelay_ms_bits: 0x41A0_0000,
        lowpass_filter_bits: 0x45BB_8000,
        decay_bits: 0x3F19_999A,
        wet_mix_bits: 0x3E99_999A,
    }
}

/// Club: room 0.55, damping 0.5, predelay 12 ms, low-pass 7 kHz, decay
/// 0.45, wet 0.25.
pub open spec fn spec_preset_club() -> ReverbPreset {
    ReverbPreset {
        name: "Club",
        room_size_bits: 0x3F0C_CCCD,
        damping_bits: 0x3F00_0000,
        predelay_ms_bits: 0x4140_0000,
        lowpass_filter_bits: 0x45DA_C000,
        decay_bits: 0x3EE6_6666,
        wet_mix_bits: 0x3E80_0000,
    }
}

/// Church: room 0.9, damping 0.25, predelay 35 ms, low-pass 4.5 kHz,
/// decay 0.8, wet 0.4.
pub open spec fn spec_preset_church() -> ReverbPreset {
    ReverbPreset {
        name: "Iglesia",
        room_size_bits: 0x3F66_6666,
        damping_bits: 0x3E80_0000,
        predelay_ms_bits: 0x420C_0000,
        lowpass_filter_bits: 0x458C_A000,
        decay_bits: 0x3F4C_CCCD,
        wet_mix_bits: 0x3ECC_CCCD,
    }
}

/// ASCII code of `c` with upper-case letters folded to lower case.
pub open spec fn lower_code(c: char) -> u32 {
    if 65 <= c as u32 <= 90 {
        (c as u32 + 32) as u32
    } else {
        c as u32
    }
}

/// Case-insensitive (ASCII) equality of two character sequences.
pub open spec fn eq_ignore_case(a: Seq<char>, b: Seq<char>) -> bool {
    a.len() == b.len() && forall|i: int| 0 <= i < a.len() ==> lower_code(a[i]) == lower_code(b[i])
}

/// Compares the characters between `from` and `to` against `pat`, folding
/// ASCII case.
pub(crate) fn range_matches(s: &str, from: usize, to: usize, pat: &str) -> (r: bool)
    requires
        from <= to <= s@.len(),
    ensures
        r == eq_ignore_case(s@.subrange(from as int, to as int), pat@),
{
    let ghost sub = s@.subrange(from as int, to as int);
    let plen = pat.unicode_len();
    if to - from != plen {
        return false;
    }
    let mut i: usize = 0;
    while i < plen
        invariant
            i <= plen,
            plen == pat@.len(),
            from + plen <= to <= s@.len(),
            to - from == plen,
            sub == s@.subrange(from as int, to as int),
            forall|j: int| 0 <= j < i ==> lower_code(#[trigger] sub[j]) == lower_code(pat@[j]),
        decreases plen - i,
    {
        let a = s.get_char(from + i) as u32;
        let b = pat.get_char(i) as u32;
        let la = if 65 <= a && a <= 90 {
            a + 32
        } else {
            a
        };
        let lb = if 65 <= b && b <= 90 {
            b + 32
        } else {
            b
        };
        proof {
            assert(sub[i as int] == s@[from + i]);
        }
        if la != lb {
            return false;
        }
        i += 1;
    }
    true
}

/// The preset a name resolves to, after trimming and ASCII case folding:
/// English and Spanish aliases are accepted.
pub open spec fn spec_get_preset(s: Seq<char>) -> Option<ReverbPreset> {
    let t = spec_trim(s);
    if eq_ignore_case(t, "estudio"@) || eq_ignore_case(t, "studio"@) {
        Some(spec_preset_studio())
    } else if eq_ignore_case(t, "sala grande"@) || eq_ignore_case(t, "large room"@) {
        Some(spec_preset_large_room())
    } else if eq_ignore_case(t, "club"@) {
        Some(spec_preset_club())
    } else if eq_ignore_case(t, "iglesia"@) || eq_ignore_case(t, "church"@) {
        Some(spec_preset_church())
    } else {
        None
    }
}

/// Resolves a preset name, case-insensitively, from its English or
/// Spanish alias.
pub fn get_preset(name: &str) -> (r: Option<ReverbPreset>)
    ensures
        r == spec_get_preset(name@),
{
    let n = name.unicode_len();
    proof {
        assert(name@.subrange(0, n as int) =~= name@);
    }
    let (lo, hi) = trim_range(name, 0, n);
    if range_matches(name, lo, hi, "estudio") || range_matches(name, lo, hi, "studio") {
        Some(preset_studio())
    } else if range_matches(name, lo, hi, "sala grande") || range_matches(
        name,
        lo,
        hi,
        "large room",
    ) {
        Some(preset_large_room())
    } else if range_matches(name, lo, hi, "club") {
        Some(preset_club())
    } else if range_matches(name, lo, hi, "iglesia") || range_matches(name, lo, hi, "church") {
        Some(preset_church())
    } else {
        None
    }
}

pub fn preset_studio() -> (r: ReverbPreset)
    ensures
        r == spec_preset_studio(),
{
    ReverbPreset {
        name: "Estudio",
        room_size_bits: 0x3E99_999A,
        damping_bits: 0x3F19_999A,
        predelay_ms_bits: 0x40A0_0000,
        lowpass_filter_bits: 0x45FA_0000,
        decay_bits: 0x3E99_999A,
        wet_mix_bits: 0x3E19_999A,
    }
}

pub fn preset_large_room() -> (r: ReverbPreset)
    ensures
        r == spec_preset_large_room(),
{
    ReverbPreset {
        name: "Sala Grande",
        room_size_bits: 0x3F40_0000,
        damping_bits: 0x3ECC_CCCD,
        predelay_ms_bits: 0x41A0_0000,
        lowpass_filter_bits: 0x45BB_8000,
        decay_bits: 0x3F19_999A,
        wet_mix_bits: 0x3E99_999A,
    }
}

pub fn preset_club() -> (r: ReverbPreset)
    ensures
        r == spec_preset_club(),
{
    ReverbPreset {
        name: "Club",
        room_size_bits: 0x3F0C_CCCD,
        damping_bits: 0x3F00_0000,
        predelay_ms_bits: 0x4140_0000,
        lowpass_filter_bits: 0x45DA_C000,
        decay_bits: 0x3EE6_6666,
        wet_mix_bits: 0x3E80_0000,
    }
}

pub fn preset_church() -> (r: ReverbPreset)
    ensures
        r == spec_preset_church(),
{
    ReverbPreset {
        name: "Iglesia",
        room_size_bits: 0x3F66_6666,
        damping_bits: 0x3E80_0000,
        predelay_ms_bits: 0x420C_0000,
        lowpass_filter_bits: 0x458C_A000,
        decay_bits: 0x3F4C_CCCD,
        wet_mix_bits: 0x3ECC_CCCD,
    }
}

/// Reverb parameter store with the dirty handshake.
pub struct ReverbNode {
    pub room_size_bits: u32,
    pub damping_bits: u32,
    pub predelay_ms_bits: u32,
    pub lowpass_freq_bits: u32,
    pub decay_bits: u32,
    pub wet_mix_bits: u32,
    pub sample_rate_hz: u32,
    pub needs_update: bool,
}

impl ReverbNode {
    /// Defaults: room 0.5, damping 0.5, predelay 10 ms, low-pass 8 kHz,
    /// decay 0.5, wet 0.0; the first frame recomputes, so the flag starts
    /// raised.
    pub fn new(sample_rate_hz: u32) -> (r: ReverbNode)
        ensures
            r.room_size_bits == HALF_BITS,
            r.damping_bits == HALF_BITS,
            r.predelay_ms_bits == TEN_BITS,
            r.lowpass_freq_bits == EIGHT_K_BITS,
            r.decay_bits == HALF_BITS,
            r.wet_mix_bits == ZERO_BITS,
            r.sample_rate_hz == if sample_rate_hz >= 8000 {
                sample_rate_hz
            } else {
                8000
            },
            r.needs_update,
    {
        ReverbNode {
            room_size_bits: HALF_BITS,
            damping_bits: HALF_BITS,
            predelay_ms_bits: TEN_BITS,
            lowpass_freq_bits: EIGHT_K_BITS,
            decay_bits: HALF_BITS,
            wet_mix_bits: ZERO_BITS,
            sample_rate_hz: if sample_rate_hz >= 8000 {
                sample_rate_hz
            } else {
                8000
            },
            needs_update: true,
        }
    }

    /// Stores the room-size word clamped into [0.0, 1.0]; stale.
    pub fn set_room_size(&mut self, val: u32)
        ensures
            *final(self) == (ReverbNode {
                room_size_bits: spec_clamp_bits(val, ZERO_BITS, ONE_BITS),
                needs_update: true,
                ..*old(self)
            }),
    {
        proof {
            lemma_f32_key_values(ZERO_BITS);
            lemma_f32_key_values(ONE_BITS);
        }
        self.room_size_bits = clamp_bits(val, ZERO_BITS, ONE_BITS);
        self.needs_update = true;
    }

    /// Stores the damping word clamped into [0.0, 1.0]; stale.
    pub fn set_damping(&mut self, val: u32)
        ensures
            *final(self) == (ReverbNode {
                damping_bits: spec_clamp_bits(val, ZERO_BITS, ONE_BITS),
                needs_update: true,
                ..*old(self)
            }),
    {
        proof {
            lemma_f32_key_values(ZERO_BITS);
            lemma_f32_key_values(ONE_BITS);
        }
        self.damping_bits = clamp_bits(val, ZERO_BITS, ONE_BITS);
        self.needs_update = true;
    }

    /// Stores the predelay word clamped into [0.0, 200.0] ms; stale.
    pub fn set_predelay_ms(&mut self, val: u32)
        ensures
            *final(self) == (ReverbNode {
                predelay_ms_bits: spec_clamp_bits(val, ZERO_BITS, TWO_HUNDRED_BITS),
                needs_update: true,
                ..*old(self)
            }),
    {
        proof {
            lemma_f32_key_values(ZERO_BITS);
            lemma_f32_key_values(TWO_HUNDRED_BITS);
        }
        self.predelay_ms_bits = clamp_bits(val, ZERO_BITS, TWO_HUNDRED_BITS);
        self.needs_update = true;
    }

    /// Stores the output low-pass corner clamped into [200, 20000] Hz;
    /// stale.
    pub fn set_lowpass_filter(&mut self, freq: u32)
        ensures
            *final(self) == (ReverbNode {
                lowpass_freq_bits: spec_clamp_bits(freq, TWO_HUNDRED_BITS, LOWPASS_MAX_BITS),
                needs_update: true,
                ..*old(self)
            }),
    {
        proof {
            lemma_f32_key_values(TWO_HUNDRED_BITS);
            lemma_f32_key_values(LOWPASS_MAX_BITS);
        }
        self.lowpass_freq_bits = clamp_bits(freq, TWO_HUNDRED_BITS, LOWPASS_MAX_BITS);
        self.needs_update = true;
    }

    /// Stores the decay word clamped into [0.0, 1.0]; stale.
    pub fn set_decay(&mut self, val: u32)
        ensures
            *final(self) == (ReverbNode {
                decay_bits: spec_clamp_bits(val, ZERO_BITS, ONE_BITS),
                needs_update: true,
                ..*old(self)
            }),
    {
        proof {
            lemma_f32_key_values(ZERO_BITS);
            lemma_f32_key_values(ONE_BITS);
        }
        self.decay_bits = clamp_bits(val, ZERO_BITS, ONE_BITS);
        self.needs_update = true;
    }

    /// Stores the wet-mix word clamped into [0.0, 1.0].  A zero wet mix
    /// bypasses the reverb exactly, so no recompute is needed and the flag
    /// is left alone.
    pub fn set_wet_mix(&mut self, val: u32)
        ensures
            *final(self) == (ReverbNode {
                wet_mix_bits: spec_clamp_bits(val, ZERO_BITS, ONE_BITS),
                ..*old(self)
            }),
    {
        proof {
            lemma_f32_key_values(ZERO_BITS);
            lemma_f32_key_values(ONE_BITS);
        }
        self.wet_mix_bits = clamp_bits(val, ZERO_BITS, ONE_BITS);
    }

    /// Installs every word of a preset through the clamping setters.
    pub fn load_preset(&mut self, preset: &ReverbPreset)
        ensures
            *final(self) == (ReverbNode {
                room_size_bits: spec_clamp_bits(preset.room_size_bits, ZERO_BITS, ONE_BITS),
                damping_bits: spec_clamp_bits(preset.damping_bits, ZERO_BITS, ONE_BITS),
                predelay_ms_bits: spec_clamp_bits(
                    preset.predelay_ms_bits,
                    ZERO_BITS,
                    TWO_HUNDRED_BITS,
                ),
                lowpass_freq_bits: spec_clamp_bits(
                    preset.lowpass_filter_bits,
                    TWO_HUNDRED_BITS,
                    LOWPASS_MAX_BITS,
                ),
                decay_bits: spec_clamp_bits(preset.decay_bits, ZERO_BITS, ONE_BITS),
                wet_mix_bits: spec_clamp_bits(preset.wet_mix_bits, ZERO_BITS, ONE_BITS),
                needs_update: true,
                ..*old(self)
            }),
    {
        self.set_room_size(preset.room_size_bits);
        self.set_damping(preset.damping_bits);
        self.set_predelay_ms(preset.predelay_ms_bits);
        self.set_lowpass_filter(preset.lowpass_filter_bits);
        self.set_decay(preset.decay_bits);
        self.set_wet_mix(preset.wet_mix_bits);
    }

    /// Adopts a new sample rate (floored at 8 kHz); the host rebuilds the
    /// comb and allpass lines at the scaled lengths when it changed.
    pub fn set_sample_rate(&mut self, sample_rate_hz: u32)
        ensures
            final(self).sample_rate_hz == if sample_rate_hz >= 8000 {
                sample_rate_hz
            } else {
                8000
            },
            final(self).sample_rate_hz != old(self).sample_rate_hz ==> final(self).needs_update,
            final(self).sample_rate_hz == old(self).sample_rate_hz ==> *final(self) == *old(self),
    {
        let rate = if sample_rate_hz >= 8000 {
            sample_rate_hz
        } else {
            8000
        };
        if rate != self.sample_rate_hz {
            self.sample_rate_hz = rate;
            self.needs_update = true;
        }
    }

    /// The audio thread's take of the dirty flag before a recompute.
    pub fn consume_dirty(&mut self) -> (r: bool)
        ensures
            r == old(self).needs_update,
            *final(self) == (ReverbNode { needs_update: false, ..*old(self) }),
    {
        let was = self.needs_update;
        self.needs_update = false;
        was
    }
}

} // verus!
