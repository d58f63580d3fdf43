//! Tone, balance and crossfeed-expansion parameter stores.
//!
//! The tone node shapes bass and treble with shelving filters at fixed
//! corner frequencies; balance is a stateless gain pair; the expansion node
//! mixes a short delayed, low-passed crossfeed between the channels.  The
//! shelving and filtering arithmetic runs in the host layer; the parameter
//! words, their clamping, the dirty handshake and the delay-line sizing rule
//! are verified here.

use vstd::prelude::*;
use crate::bits::{clamp_bits, spec_clamp_bits, lemma_f32_key_values};
use crate::filters::{ZERO_BITS, ONE_BITS};

verus! {

/// Bit pattern of -12.0 dB, the lower tone gain bound.
pub const TONE_MIN_BITS: u32 = 0xC140_0000;

/// Bit pattern of 12.0 dB, the upper tone gain bound.
pub const TONE_MAX_BITS: u32 = 0x4140_0000;

/// Bit pattern of -1.0, full-left balance.
pub const BALANCE_MIN_BITS: u32 = 0xBF80_0000;

/// Bit pattern of 1.0, full-right balance.
pub const BALANCE_MAX_BITS: u32 = 0x3F80_0000;

/// Tone control: a low shelf near 100 Hz and a high shelf near 10 kHz,
/// slope 1.0, per channel.
pub struct ToneNode {
    pub bass_gain_bits: u32,
    pub treble_gain_bits: u32,
    pub sample_rate_hz: u32,
    pub needs_update: bool,
}

impl ToneNode {
    /// Flat tone at the given rate (floored at 8 kHz); the host computes
    /// the shelf coefficients eagerly, so the flag starts clear.
    pub fn new(sample_rate_hz: u32) -> (r: ToneNode)
        ensures
            r.bass_gain_bits == ZERO_BITS,
            r.treble_gain_bits == ZERO_BITS,
            r.sample_rate_hz == if sample_rate_hz >= 8000 {
                sample_rate_hz
            } else {
                8000
            },
            !r.needs_update,
    {
        ToneNode {
            bass_gain_bits: ZERO_BITS,
            treble_gain_bits: ZERO_BITS,
            sample_rate_hz: if sample_rate_hz >= 8000 {
                sample_rate_hz
            } else {
                8000
            },
            needs_update: false,
        }
    }

    /// Stores the bass gain word clamped into [-12.0, 12.0] dB and marks
    /// the shelves stale.
    pub fn set_bass(&mut self, gain_db: u32)
        ensures
            *final(self) == (ToneNode {
                bass_gain_bits: spec_clamp_bits(gain_db, TONE_MIN_BITS, TONE_MAX_BITS),
                needs_update: true,
                ..*old(self)
            }),
    {
        proof {
            lemma_f32_key_values(TONE_MIN_BITS);
            lemma_f32_key_values(TONE_MAX_BITS);
        }
        self.bass_gain_bits = clamp_bits(gain_db, TONE_MIN_BITS, TONE_MAX_BITS);
        self.needs_update = true;
    }

    /// Stores the treble gain word clamped into [-12.0, 12.0] dB and marks
    /// the shelves stale.
    pub fn set_treble(&mut self, gain_db: u32)
        ensures
            *final(self) == (ToneNode {
                treble_gain_bits: spec_clamp_bits(gain_db, TONE_MIN_BITS, TONE_MAX_BITS),
                needs_update: true,
                ..*old(self)
            }),
    {
        proof {
            lemma_f32_key_values(TONE_MIN_BITS);
            lemma_f32_key_values(TONE_MAX_BITS);
        }
        self.treble_gain_bits = clamp_bits(gain_db, TONE_MIN_BITS, TONE_MAX_BITS);
        self.needs_update = true;
    }

    /// Adopts a new sample rate (floored at 8 kHz), marking the shelves
    /// stale when it changed.
    pub fn set_sample_rate(&mut self, sample_rate_hz: u32)
        ensures
            final(self).bass_gain_bits == old(self).bass_gain_bits,
            final(self).treble_gain_bits == old(self).treble_gain_bits,
            final(self).sample_rate_hz == if sample_rate_hz >= 8000 {
                sample_rate_hz
            } else {
                8000
            },
            final(self).needs_update == (old(self).needs_update || final(self).sample_rate_hz
                != old(self).sample_rate_hz),
    {
        let rate = if sample_rate_hz >= 8000 {
            sample_rate_hz
        } else {
            8000
        };
        if rate != self.sample_rate_hz {
            self.sample_rate_hz = rate;
            self.needs_update = true;
        }
    }

    /// The audio thread's take of the dirty flag before a recompute.
    pub fn consume_dirty(&mut self) -> (r: bool)
        ensures
            r == old(self).needs_update,
            *final(self) == (ToneNode { needs_update: false, ..*old(self) }),
    {
        let was = self.needs_update;
        self.needs_update = false;
        was
    }
}

/// Stereo balance parameter: -1.0 plays only the left channel, 1.0 only
/// the right.
pub struct BalanceNode {
    pub balance_bits: u32,
}

impl BalanceNode {
    /// Centered balance.
    pub fn new() -> (r: BalanceNode)
        ensures
            r.balance_bits == ZERO_BITS,
    {
        BalanceNode { balance_bits: ZERO_BITS }
    }

    /// Stores the balance word clamped into [-1.0, 1.0].
    pub fn set_balance(&mut self, balance: u32)
        ensures
            final(self).balance_bits == spec_clamp_bits(
                balance,
                BALANCE_MIN_BITS,
                BALANCE_MAX_BITS,
            ),
    {
        proof {
            lemma_f32_key_values(BALANCE_MIN_BITS);
            lemma_f32_key_values(BALANCE_MAX_BITS);
        }
        self.balance_bits = clamp_bits(balance, BALANCE_MIN_BITS, BALANCE_MAX_BITS);
    }

    pub fn balance_bits(&self) -> (r: u32)
        ensures
            r == self.balance_bits,
    {
        self.balance_bits
    }
}

/// Length in samples of the 0.3 ms crossfeed delay at a sample rate,
/// rounded up and floored at one sample.
pub open spec fn spec_crossfeed_delay_len(sample_rate_hz: u32) -> int {
    let up = (3 * sample_rate_hz + 9999) / 10000;
    if up >= 1 {
        up as int
    } else {
        1
    }
}

/// Crossfeed stereo-expansion parameters: the mix amount and the delay
/// sizing that follows the sample rate.
pub struct StereoExpansionNode {
    pub amount_bits: u32,
    pub sample_rate_hz: u32,
}

impl StereoExpansionNode {
    /// Expansion off at the given rate (floored at 8 kHz).
    pub fn new(sample_rate_hz: u32) -> (r: StereoExpansionNode)
        ensures
            r.amount_bits == ZERO_BITS,
            r.sample_rate_hz == if sample_rate_hz >= 8000 {
                sample_rate_hz
            } else {
                8000
            },
    {
        StereoExpansionNode {
            amount_bits: ZERO_BITS,
            sample_rate_hz: if sample_rate_hz >= 8000 {
                sample_rate_hz
            } else {
                8000
            },
        }
    }

    /// Stores the amount word clamped into [0.0, 1.0]; a zero amount is a
    /// pure bypass in the host's sample path.
    pub fn set_amount(&mut self, amount: u32)
        ensures
            final(self).amount_bits == spec_clamp_bits(amount, ZERO_BITS, ONE_BITS),
            final(self).sample_rate_hz == old(self).sample_rate_hz,
    {
        proof {
            lemma_f32_key_values(ZERO_BITS);
            lemma_f32_key_values(ONE_BITS);
        }
        self.amount_bits = clamp_bits(amount, ZERO_BITS, ONE_BITS);
    }

    /// Adopts a new sample rate (floored at 8 kHz); the host resizes the
    /// delay buffers to `delay_len` when it changed.
    pub fn set_sample_rate(&mut self, sample_rate_hz: u32)
        ensures
            final(self).amount_bits == old(self).amount_bits,
            final(self).sample_rate_hz == if sample_rate_hz >= 8000 {
                sample_rate_hz
            } else {
                8000
            },
    {
        let rate = if sample_rate_hz >= 8000 {
            sample_rate_hz
        } else {
            8000
        };
        if rate != self.sample_rate_hz {
            self.sample_rate_hz = rate;
        }
    }

    /// The crossfeed delay length the host must allocate for this rate.
    pub fn delay_len(&self) -> (r: usize)
        requires
            self.sample_rate_hz < 0x0200_0000,
        ensures
            r == spec_crossfeed_delay_len(self.sample_rate_hz),
            r >= 1,
    {
        let up = (3 * self.sample_rate_hz + 9999) / 10000;
        if up >= 1 {
            up as usize
        } else {
            1
        }
    }

    pub fn amount_bits(&self) -> (r: u32)
        ensures
            r == self.amount_bits,
    {
        self.amount_bits
    }
}

} // verus!
