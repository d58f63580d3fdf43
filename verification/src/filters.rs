//! Parametric-equalizer parameter plane.
//!
//! Each band stores its filter form and three 32-bit parameter words
//! (frequency in Hz, gain in dB, Q).  Edits sanitize the words, store them,
//! and raise a dirty flag only when a stored word actually changed; the
//! audio thread consumes the flag just before it recomputes coefficients.
//! The coefficient arithmetic itself runs in the host layer on the decoded
//! values; everything it is handed comes from these verified stores.

use vstd::prelude::*;
use crate::bits::{
    clamp_bits, spec_clamp_bits, f32_key, lemma_f32_key_values, f32_bits_of_uint,
    spec_f32_bits_of_uint,
};

verus! {

/// Bit pattern of 10.0 Hz, the lower frequency bound.
pub const FREQ_MIN_BITS: u32 = 0x4120_0000;

/// Bit pattern of -24.0 dB, the lower gain bound.
pub const GAIN_MIN_BITS: u32 = 0xC1C0_0000;

/// Bit pattern of 24.0 dB, the upper gain bound.
pub const GAIN_MAX_BITS: u32 = 0x41C0_0000;

/// Bit pattern of 0.1, the lower Q bound.
pub const Q_MIN_BITS: u32 = 0x3DCC_CCCD;

/// Bit pattern of 18.0, the upper Q bound.
pub const Q_MAX_BITS: u32 = 0x4190_0000;

/// Bit pattern of 1.0, the default Q.
pub const Q_DEFAULT_BITS: u32 = 0x3F80_0000;

/// Bit pattern of 0.2, the stereo widener's default amount.
pub const WIDENER_DEFAULT_BITS: u32 = 0x3E4C_CCCD;

/// Bit pattern of 0.0.
pub const ZERO_BITS: u32 = 0x0000_0000;

/// Bit pattern of 1.0.
pub const ONE_BITS: u32 = 0x3F80_0000;

/// Fewest bands an equalizer is built with.
pub const EQ_BANDS_MIN: usize = 10;

/// Most bands an equalizer is built with.
pub const EQ_BANDS_MAX: usize = 15;

/// The closed set of filter forms a band can take.
#[derive(Clone, Copy, PartialEq, Eq, Structural, Debug)]
pub enum FilterType {
    Peaking,
    LowShelf,
    HighShelf,
    HighPass,
    LowPass,
}

/// One equalizer band: its filter form and raw parameter words.
pub struct EqBand {
    pub filter_type: FilterType,
    pub frequency_bits: u32,
    pub gain_db_bits: u32,
    pub q_factor_bits: u32,
}

/// Default center frequency in Hz of band `index` out of `total`: the
/// log-spaced ladder from 32 Hz to 16 kHz, rounded to whole Hz, one table
/// per supported band count.
pub open spec fn spec_default_band_frequency_hz(index: int, total: int) -> u32 {
    if total == 10 {
        if index == 0 {
            32u32
        } else if index == 1 {
            64u32
        } else if index == 2 {
            127u32
        } else if index == 3 {
            254u32
        } else if index == 4 {
            507u32
        } else if index == 5 {
            1011u32
        } else if index == 6 {
            2016u32
        } else if index == 7 {
            4021u32
        } else if index == 8 {
            8021u32
        } else {
            16000u32
        }
    } else if total == 11 {
        if index == 0 {
            32u32
        } else if index == 1 {
            60u32
        } else if index == 2 {
            111u32
        } else if index == 3 {
            206u32
        } else if index == 4 {
            384u32
        } else if index == 5 {
            716u32
        } else if index == 6 {
            1332u32
        } else if index == 7 {
            2480u32
        } else if index == 8 {
            4617u32
        } else if index == 9 {
            8595u32
        } else {
            16000u32
        }
    } else if total == 12 {
        if index == 0 {
            32u32
        } else if index == 1 {
            56u32
        } else if index == 2 {
            99u32
        } else if index == 3 {
            174u32
        } else if index == 4 {
            307u32
        } else if index == 5 {
            539u32
        } else if index == 6 {
            949u32
        } else if index == 7 {
            1670u32
        } else if index == 8 {
            2938u32
        } else if index == 9 {
            5169u32
        } else if index == 10 {
            9094u32
        } else {
            16000u32
        }
    } else if total == 13 {
        if index == 0 {
            32u32
        } else if index == 1 {
            54u32
        } else if index == 2 {
            90u32
        } else if index == 3 {
            151u32
        } else if index == 4 {
            254u32
        } else if index == 5 {
            426u32
        } else if index == 6 {
            716u32
        } else if index == 7 {
            1201u32
        } else if index == 8 {
            2016u32
        } else if index == 9 {
            3384u32
        } else if index == 10 {
            5679u32
        } else if index == 11 {
            9532u32
        } else {
            16000u32
        }
    } else if total == 14 {
        if index == 0 {
            32u32
        } else if index == 1 {
            52u32
        } else if index == 2 {
            83u32
        } else if index == 3 {
            134u32
        } else if index == 4 {
            217u32
        } else if index == 5 {
            349u32
        } else if index == 6 {
            563u32
        } else if index == 7 {
            909u32
        } else if index == 8 {
            1466u32
        } else if index == 9 {
            2364u32
        } else if index == 10 {
            3813u32
        } else if index == 11 {
            6150u32
        } else if index == 12 {
            9920u32
        } else {
            16000u32
        }
    } else {
        if index == 0 {
            32u32
        } else if index == 1 {
            50u32
        } else if index == 2 {
            78u32
        } else if index == 3 {
            121u32
        } else if index == 4 {
            189u32
        } else if index == 5 {
            294u32
        } else if index == 6 {
            459u32
        } else if index == 7 {
            716u32
        } else if index == 8 {
            1115u32
        } else if index == 9 {
            1739u32
        } else if index == 10 {
            2710u32
        } else if index == 11 {
            4224u32
        } else if index == 12 {
            6585u32
        } else if index == 13 {
            10264u32
        } else {
            16000u32
        }
    }
}

/// Default center frequency in Hz of band `index` out of `total`.
pub fn default_band_frequency_hz(index: usize, total: usize) -> (r: u32)
    requires
        EQ_BANDS_MIN <= total <= EQ_BANDS_MAX,
        index < total,
    ensures
        r == spec_default_band_frequency_hz(index as int, total as int),
        32 <= r <= 16000,
{
    proof {
        lemma_default_band_frequency_range(index as int, total as int);
    }
    if total == 10 {
        if index == 0 {
            32u32
        } else if index == 1 {
            64u32
        } else if index == 2 {
            127u32
        } else if index == 3 {
            254u32
        } else if index == 4 {
            507u32
        } else if index == 5 {
            1011u32
        } else if index == 6 {
            2016u32
        } else if index == 7 {
            4021u32
        } else if index == 8 {
            8021u32
        } else {
            16000u32
        }
    } else if total == 11 {
        if index == 0 {
            32u32
        } else if index == 1 {
            60u32
        } else if index == 2 {
            111u32
        } else if index == 3 {
            206u32
        } else if index == 4 {
            384u32
        } else if index == 5 {
            716u32
        } else if index == 6 {
            1332u32
        } else if index == 7 {
            2480u32
        } else if index == 8 {
            4617u32
        } else if index == 9 {
            8595u32
        } else {
            16000u32
        }
    } else if total == 12 {
        if index == 0 {
            32u32
        } else if index == 1 {
            56u32
        } else if index == 2 {
            99u32
        } else if index == 3 {
            174u32
        } else if index == 4 {
            307u32
        } else if index == 5 {
            539u32
        } else if index == 6 {
            949u32
        } else if index == 7 {
            1670u32
        } else if index == 8 {
            2938u32
        } else if index == 9 {
            5169u32
        } else if index == 10 {
            9094u32
        } else {
            16000u32
        }
    } else if total == 13 {
        if index == 0 {
            32u32
        } else if index == 1 {
            54u32
        } else if index == 2 {
            90u32
        } else if index == 3 {
            151u32
        } else if index == 4 {
            254u32
        } else if index == 5 {
            426u32
        } else if index == 6 {
            716u32
        } else if index == 7 {
            1201u32
        } else if index == 8 {
            2016u32
        } else if index == 9 {
            3384u32
        } else if index == 10 {
            5679u32
        } else if index == 11 {
            9532u32
        } else {
            16000u32
        }
    } else if total == 14 {
        if index == 0 {
            32u32
        } else if index == 1 {
            52u32
        } else if index == 2 {
            83u32
        } else if index == 3 {
            134u32
        } else if index == 4 {
            217u32
        } else if index == 5 {
            349u32
        } else if index == 6 {
            563u32
        } else if index == 7 {
            909u32
        } else if index == 8 {
            1466u32
        } else if index == 9 {
            2364u32
        } else if index == 10 {
            3813u32
        } else if index == 11 {
            6150u32
        } else if index == 12 {
            9920u32
        } else {
            16000u32
        }
    } else {
        if index == 0 {
            32u32
        } else if index == 1 {
            50u32
        } else if index == 2 {
            78u32
        } else if index == 3 {
            121u32
        } else if index == 4 {
            189u32
        } else if index == 5 {
            294u32
        } else if index == 6 {
            459u32
        } else if index == 7 {
            716u32
        } else if index == 8 {
            1115u32
        } else if index == 9 {
            1739u32
        } else if index == 10 {
            2710u32
        } else if index == 11 {
            4224u32
        } else if index == 12 {
            6585u32
        } else if index == 13 {
            10264u32
        } else {
            16000u32
        }
    }
}

/// Every default frequency sits between 32 Hz and 16 kHz.
pub proof fn lemma_default_band_frequency_range(index: int, total: int)
    requires
        EQ_BANDS_MIN <= total <= EQ_BANDS_MAX,
        0 <= index < total,
    ensures
        32 <= spec_default_band_frequency_hz(index, total) <= 16000,
{
}

/// The default frequencies ascend strictly along the band ladder.
pub proof fn lemma_default_band_frequency_ascends(total: int, i: int, j: int)
    requires
        EQ_BANDS_MIN <= total <= EQ_BANDS_MAX,
        0 <= i < j < total,
    ensures
        spec_default_band_frequency_hz(i, total) < spec_default_band_frequency_hz(j, total),
    decreases j - i,
{
    if j > i + 1 {
        lemma_default_band_frequency_ascends(total, i, j - 1);
        lemma_default_band_frequency_ascends(total, j - 1, j);
    }
}

/// The sanitize ceiling for frequencies: the f32 pattern of
/// `sample_rate / 2 - 1` Hz (in whole Hz), floored at 10 Hz.
pub open spec fn spec_freq_ceiling(sample_rate_hz: u32) -> u32 {
    let nyq = spec_f32_bits_of_uint(((sample_rate_hz - 2) / 2) as u32);
    if nyq >= FREQ_MIN_BITS {
        nyq
    } else {
        FREQ_MIN_BITS
    }
}

/// Computes the frequency ceiling for a sample rate.
pub fn freq_ceiling(sample_rate_hz: u32) -> (r: u32)
    requires
        8000 <= sample_rate_hz < 0x0200_0000,
    ensures
        r == spec_freq_ceiling(sample_rate_hz),
        FREQ_MIN_BITS <= r < 0x8000_0000,
{
    let nyq = f32_bits_of_uint((sample_rate_hz - 2) / 2);
    if nyq >= FREQ_MIN_BITS {
        nyq
    } else {
        FREQ_MIN_BITS
    }
}

/// A band's words after sanitizing against a frequency ceiling.
pub open spec fn spec_sanitized(
    band: EqBand,
    freq_max_bits: u32,
    frequency: u32,
    gain_db: u32,
    q_factor: u32,
) -> EqBand {
    EqBand {
        filter_type: band.filter_type,
        frequency_bits: spec_clamp_bits(frequency, FREQ_MIN_BITS, freq_max_bits),
        gain_db_bits: spec_clamp_bits(gain_db, GAIN_MIN_BITS, GAIN_MAX_BITS),
        q_factor_bits: spec_clamp_bits(q_factor, Q_MIN_BITS, Q_MAX_BITS),
    }
}

/// Parametric equalizer: a fixed list of bands, the canonical sample rate,
/// and the dirty flag consumed by the audio thread.
pub struct ParametricEQ {
    pub sample_rate_hz: u32,
    pub freq_max_bits: u32,
    pub bands: Vec<EqBand>,
    pub needs_recalculation: bool,
}

impl ParametricEQ {
    /// Equalizer validity: a usable rate, its matching ceiling, and a band
    /// count in the fixed range.
    pub open spec fn wf(self) -> bool {
        &&& 8000 <= self.sample_rate_hz < 0x0200_0000
        &&& self.freq_max_bits == spec_freq_ceiling(self.sample_rate_hz)
        &&& FREQ_MIN_BITS <= self.freq_max_bits < 0x8000_0000
        &&& EQ_BANDS_MIN <= self.bands@.len() <= EQ_BANDS_MAX
    }

    /// Builds an equalizer with `bands` peaking bands (clamped into the
    /// fixed range) at default frequencies, flat gain and unit Q; the rate
    /// is floored at 8 kHz.  Coefficients are computed eagerly by the host,
    /// so the flag starts clear.
    pub fn new(bands: usize, sample_rate_hz: u32) -> (r: ParametricEQ)
        requires
            sample_rate_hz < 0x0200_0000,
        ensures
            r.wf(),
            !r.needs_recalculation,
            r.sample_rate_hz == if sample_rate_hz >= 8000 {
                sample_rate_hz
            } else {
                8000
            },
            r.bands@.len() == if bands < EQ_BANDS_MIN {
                EQ_BANDS_MIN as int
            } else if bands > EQ_BANDS_MAX {
                EQ_BANDS_MAX as int
            } else {
                bands as int
            },
            forall|i: int|
                0 <= i < r.bands@.len() ==> (#[trigger] r.bands@[i]).filter_type
                    == FilterType::Peaking && r.bands@[i].gain_db_bits == ZERO_BITS
                    && r.bands@[i].q_factor_bits == Q_DEFAULT_BITS
                    && r.bands@[i].frequency_bits == spec_f32_bits_of_uint(
                    spec_default_band_frequency_hz(i, r.bands@.len() as int),
                ),
    {
        let band_count = if bands < EQ_BANDS_MIN {
            EQ_BANDS_MIN
        } else if bands > EQ_BANDS_MAX {
            EQ_BANDS_MAX
        } else {
            bands
        };
        let rate = if sample_rate_hz >= 8000 {
            sample_rate_hz
        } else {
            8000
        };
        let mut eq_bands: Vec<EqBand> = Vec::new();
        let mut i: usize = 0;
        while i < band_count
            invariant
                i <= band_count,
                EQ_BANDS_MIN <= band_count <= EQ_BANDS_MAX,
                eq_bands@.len() == i,
                forall|j: int|
                    0 <= j < i ==> (#[trigger] eq_bands@[j]).filter_type == FilterType::Peaking
                        && eq_bands@[j].gain_db_bits == ZERO_BITS && eq_bands@[j].q_factor_bits
                        == Q_DEFAULT_BITS && eq_bands@[j].frequency_bits == spec_f32_bits_of_uint(
                        spec_default_band_frequency_hz(j, band_count as int),
                    ),
            decreases band_count - i,
        {
            let hz = default_band_frequency_hz(i, band_count);
            eq_bands.push(EqBand {
                filter_type: FilterType::Peaking,
                frequency_bits: f32_bits_of_uint(hz),
                gain_db_bits: ZERO_BITS,
                q_factor_bits: Q_DEFAULT_BITS,
            });
            i += 1;
        }
        ParametricEQ {
            sample_rate_hz: rate,
            freq_max_bits: freq_ceiling(rate),
            bands: eq_bands,
            needs_recalculation: false,
        }
    }

    /// Adopts a new sample rate (floored at 8 kHz) and marks the
    /// coefficients stale when it differs from the current one.
    pub fn set_sample_rate(&mut self, sample_rate_hz: u32)
        requires
            old(self).wf(),
            sample_rate_hz < 0x0200_0000,
        ensures
            final(self).wf(),
            final(self).bands@ == old(self).bands@,
            final(self).sample_rate_hz == if sample_rate_hz >= 8000 {
                sample_rate_hz
            } else {
                8000
            },
            final(self).needs_recalculation == (old(self).needs_recalculation || final(self).sample_rate_hz != old(self).sample_rate_hz),
    {
        let rate = if sample_rate_hz >= 8000 {
            sample_rate_hz
        } else {
            8000
        };
        if rate != self.sample_rate_hz {
            self.sample_rate_hz = rate;
            self.freq_max_bits = freq_ceiling(rate);
            self.needs_recalculation = true;
        }
    }

    /// Sanitizes and stores one band's parameter words; the dirty flag
    /// rises exactly when a stored word changed.  An out-of-range index is
    /// rejected and changes nothing.
    pub fn update_band(&mut self, index: usize, frequency: u32, gain_db: u32, q_factor: u32) -> (r:
        Result<(), String>)
        requires
            old(self).wf(),
        ensures
            final(self).wf(),
            index >= old(self).bands@.len() ==> r is Err && *final(self) == *old(self),
            index < old(self).bands@.len() ==> {
                let sb = spec_sanitized(
                    old(self).bands@[index as int],
                    old(self).freq_max_bits,
                    frequency,
                    gain_db,
                    q_factor,
                );
                &&& r is Ok
                &&& final(self).bands@ == old(self).bands@.update(index as int, sb)
                &&& final(self).needs_recalculation == (old(self).needs_recalculation || sb
                    != old(self).bands@[index as int])
                &&& final(self).sample_rate_hz == old(self).sample_rate_hz
                &&& final(self).freq_max_bits == old(self).freq_max_bits
            },
    {
        if index >= self.bands.len() {
            return Err("Band index out of range".to_owned());
        }
        proof {
            lemma_f32_key_values(FREQ_MIN_BITS);
            lemma_f32_key_values(self.freq_max_bits);
            lemma_f32_key_values(GAIN_MIN_BITS);
            lemma_f32_key_values(GAIN_MAX_BITS);
            lemma_f32_key_values(Q_MIN_BITS);
            lemma_f32_key_values(Q_MAX_BITS);
        }
        let fs = clamp_bits(frequency, FREQ_MIN_BITS, self.freq_max_bits);
        let gs = clamp_bits(gain_db, GAIN_MIN_BITS, GAIN_MAX_BITS);
        let qs = clamp_bits(q_factor, Q_MIN_BITS, Q_MAX_BITS);
        let stored = &self.bands[index];
        let changed = stored.frequency_bits != fs || stored.gain_db_bits != gs
            || stored.q_factor_bits != qs;
        let ft = stored.filter_type;
        *vstd::std_specs::vec::vec_index_mut(&mut self.bands, index) = EqBand {
            filter_type: ft,
            frequency_bits: fs,
            gain_db_bits: gs,
            q_factor_bits: qs,
        };
        if changed {
            self.needs_recalculation = true;
        }
        Ok(())
    }

    /// Snapshot of the stored band words as (frequency, gain, Q) triples.
    pub fn get_bands(&self) -> (r: Vec<(u32, u32, u32)>)
        ensures
            r@.len() == self.bands@.len(),
            forall|i: int|
                0 <= i < r@.len() ==> #[trigger] r@[i] == (
                    self.bands@[i].frequency_bits,
                    self.bands@[i].gain_db_bits,
                    self.bands@[i].q_factor_bits,
                ),
    {
        let mut out: Vec<(u32, u32, u32)> = Vec::new();
        let mut i: usize = 0;
        while i < self.bands.len()
            invariant
                i <= self.bands@.len(),
                out@.len() == i,
                forall|j: int|
                    0 <= j < i ==> #[trigger] out@[j] == (
                        self.bands@[j].frequency_bits,
                        self.bands@[j].gain_db_bits,
                        self.bands@[j].q_factor_bits,
                    ),
            decreases self.bands@.len() - i,
        {
            let band = &self.bands[i];
            out.push((band.frequency_bits, band.gain_db_bits, band.q_factor_bits));
            i += 1;
        }
        out
    }

    pub fn is_dirty(&self) -> (r: bool)
        ensures
            r == self.needs_recalculation,
    {
        self.needs_recalculation
    }

    /// The audio thread's take of the dirty flag just before a recompute:
    /// returns whether a recompute is due and lowers the flag.
    pub fn consume_dirty(&mut self) -> (r: bool)
        ensures
            r == old(self).needs_recalculation,
            *final(self) == (ParametricEQ { needs_recalculation: false, ..*old(self) }),
    {
        let was = self.needs_recalculation;
        self.needs_recalculation = false;
        was
    }
}

/// A second `update_band` with the same arguments cannot raise the dirty
/// flag again: the band stored by the first call sanitizes to itself, so
/// the second call stores the same words and sees no change.
pub proof fn lemma_update_band_idempotent(
    band: EqBand,
    freq_max_bits: u32,
    frequency: u32,
    gain_db: u32,
    q_factor: u32,
)
    ensures
        spec_sanitized(
            spec_sanitized(band, freq_max_bits, frequency, gain_db, q_factor),
            freq_max_bits,
            frequency,
            gain_db,
            q_factor,
        ) == spec_sanitized(band, freq_max_bits, frequency, gain_db, q_factor),
{
}

/// A band as `new` builds it sanitizes to itself: the default frequency
/// word already sits inside [10 Hz, ceiling], the flat gain inside
/// [-24, 24] dB and the unit Q inside [0.1, 18].  With `update_band`'s
/// contract this settles the dirty-flag idempotence of a fresh equalizer:
/// rewriting a band with its own stored words stores them back unchanged,
/// so the flag cannot rise.  The rate's frequency ceiling must clear the
/// 16 kHz top band, which holds from 32002 Hz upward; at lower rates the
/// ceiling genuinely rewrites the top default bands.
pub proof fn lemma_fresh_band_already_sanitized(eq: ParametricEQ, i: int)
    requires
        eq.wf(),
        eq.sample_rate_hz >= 32002,
        0 <= i < eq.bands@.len(),
        eq.bands@[i].frequency_bits == spec_f32_bits_of_uint(
            spec_default_band_frequency_hz(i, eq.bands@.len() as int),
        ),
        eq.bands@[i].gain_db_bits == ZERO_BITS,
        eq.bands@[i].q_factor_bits == Q_DEFAULT_BITS,
    ensures
        spec_sanitized(
            eq.bands@[i],
            eq.freq_max_bits,
            eq.bands@[i].frequency_bits,
            eq.bands@[i].gain_db_bits,
            eq.bands@[i].q_factor_bits,
        ) == eq.bands@[i],
{
    vstd::arithmetic::power2::lemma2_to64();
    let total = eq.bands@.len() as int;
    let hz = spec_default_band_frequency_hz(i, total);
    lemma_default_band_frequency_range(i, total);
    crate::bits::lemma_f32_bits_eval(hz);
    let s = crate::bits::norm_shifts(hz as nat);
    let fb = eq.bands@[i].frequency_bits;
    if s >= 19 {
        if s > 19 {
            vstd::arithmetic::power2::lemma_pow2_strictly_increases(19, s);
        }
        assert(hz * vstd::arithmetic::power2::pow2(s) >= 32 * 0x0008_0000) by (nonlinear_arith)
            requires
                hz >= 32,
                vstd::arithmetic::power2::pow2(s) >= 0x0008_0000,
        ;
        assert(false);
    }
    assert(fb >= 0x4200_0000);
    let nyq_hz = ((eq.sample_rate_hz - 2) / 2) as u32;
    crate::bits::lemma_f32_bits_eval(nyq_hz);
    if hz < nyq_hz {
        crate::bits::lemma_f32_bits_of_uint_increases(hz, nyq_hz);
    }
    assert(fb <= spec_f32_bits_of_uint(nyq_hz));
    assert(eq.freq_max_bits == spec_f32_bits_of_uint(nyq_hz));
    lemma_f32_key_values(fb);
    lemma_f32_key_values(FREQ_MIN_BITS);
    lemma_f32_key_values(eq.freq_max_bits);
    lemma_f32_key_values(ZERO_BITS);
    lemma_f32_key_values(GAIN_MIN_BITS);
    lemma_f32_key_values(GAIN_MAX_BITS);
    lemma_f32_key_values(Q_DEFAULT_BITS);
    lemma_f32_key_values(Q_MIN_BITS);
    lemma_f32_key_values(Q_MAX_BITS);
}

/// A fresh equalizer's default bands ascend strictly in frequency: the
/// Hz ladder ascends and the pattern encoder respects integer order, so
/// `get_bands` on a default equalizer snapshots positive, strictly
/// ascending frequency words.
pub proof fn lemma_default_bands_strictly_ascending(total: int, i: int, j: int)
    requires
        EQ_BANDS_MIN <= total <= EQ_BANDS_MAX,
        0 <= i < j < total,
    ensures
        spec_f32_bits_of_uint(spec_default_band_frequency_hz(i, total)) < spec_f32_bits_of_uint(
            spec_default_band_frequency_hz(j, total),
        ),
        0 < spec_f32_bits_of_uint(spec_default_band_frequency_hz(i, total)) < 0x8000_0000,
        0 < spec_f32_bits_of_uint(spec_default_band_frequency_hz(j, total)) < 0x8000_0000,
{
    vstd::arithmetic::power2::lemma2_to64();
    lemma_default_band_frequency_range(i, total);
    lemma_default_band_frequency_range(j, total);
    lemma_default_band_frequency_ascends(total, i, j);
    crate::bits::lemma_f32_bits_eval(spec_default_band_frequency_hz(i, total));
    crate::bits::lemma_f32_bits_eval(spec_default_band_frequency_hz(j, total));
    crate::bits::lemma_f32_bits_of_uint_increases(
        spec_default_band_frequency_hz(i, total),
        spec_default_band_frequency_hz(j, total),
    );
}

/// Stereo widener parameter store.
pub struct StereoWidener {
    pub amount_bits: u32,
}

impl StereoWidener {
    /// Default widening amount of 0.2.
    pub fn new() -> (r: StereoWidener)
        ensures
            r.amount_bits == WIDENER_DEFAULT_BITS,
    {
        StereoWidener { amount_bits: WIDENER_DEFAULT_BITS }
    }

    /// Stores the amount word clamped into [0.0, 1.0].
    pub fn set_amount(&mut self, amount: u32)
        ensures
            final(self).amount_bits == spec_clamp_bits(amount, ZERO_BITS, ONE_BITS),
    {
        proof {
            lemma_f32_key_values(ZERO_BITS);
            lemma_f32_key_values(ONE_BITS);
        }
        self.amount_bits = clamp_bits(amount, ZERO_BITS, ONE_BITS);
    }

    pub fn amount_bits(&self) -> (r: u32)
        ensures
            r == self.amount_bits,
    {
        self.amount_bits
    }
}

} // verus!
