//! Output-device configuration choice.
//!
//! The host enumerates the configurations its audio device advertises and
//! hands them over as plain ranges; the choice among them is made here.  A
//! configuration matching the track's channel count whose rate range holds
//! the track's rate wins, immediately when it carries float samples;
//! otherwise the last such match is preferred, and the fallback is the
//! last float-sample configuration at its top rate, or the first
//! configuration seen.  The flag in the result says whether the exact
//! track rate was hit.

use vstd::prelude::*;

verus! {

/// Sample format a device configuration advertises.
#[derive(Clone, Copy, PartialEq, Eq, Structural, Debug)]
pub enum SampleFormat {
    F32,
    I16,
    U16,
    Other,
}

/// One advertised output configuration: a channel count and a supported
/// rate range for one sample format.
#[derive(Clone, Copy, PartialEq, Eq, Structural, Debug)]
pub struct ConfigRange {
    pub channels: u16,
    pub min_rate: u32,
    pub max_rate: u32,
    pub sample_format: SampleFormat,
}

/// The chosen stream shape: channels, rate, format, and whether the rate
/// equals the track's.
#[derive(Clone, Copy, PartialEq, Eq, Structural, Debug)]
pub struct ChosenConfig {
    pub channels: u16,
    pub sample_rate: u32,
    pub sample_format: SampleFormat,
    pub exact_rate: bool,
}

/// Whether a range matches the track exactly: same channel count and the
/// track rate inside the range.
pub open spec fn spec_exact_match(cfg: ConfigRange, track_rate: u32, track_channels: u16) -> bool {
    cfg.channels == track_channels && cfg.min_rate <= track_rate <= cfg.max_rate
}

/// The chosen configuration an exact match yields.
pub open spec fn spec_exact_choice(cfg: ConfigRange, track_rate: u32) -> ChosenConfig {
    ChosenConfig {
        channels: cfg.channels,
        sample_rate: track_rate,
        sample_format: cfg.sample_format,
        exact_rate: true,
    }
}

/// The fallback a configuration yields: its top rate, not exact.
pub open spec fn spec_fallback_choice(cfg: ConfigRange) -> ChosenConfig {
    ChosenConfig {
        channels: cfg.channels,
        sample_rate: cfg.max_rate,
        sample_format: cfg.sample_format,
        exact_rate: false,
    }
}

/// The selection over a prefix of the list: either the first exact float
/// match (the scan is then over), or the preferred and fallback carried so
/// far.
pub open spec fn spec_select(
    configs: Seq<ConfigRange>,
    track_rate: u32,
    track_channels: u16,
) -> Result<ChosenConfig, (Option<ChosenConfig>, Option<ChosenConfig>)>
    decreases configs.len(),
{
    if configs.len() == 0 {
        Err((None, None))
    } else {
        match spec_select(configs.drop_last(), track_rate, track_channels) {
            Ok(done) => Ok(done),
            Err((preferred, fallback)) => {
                let cfg = configs.last();
                let exact = spec_exact_match(cfg, track_rate, track_channels);
                let is_f32 = cfg.sample_format is F32;
                if exact && is_f32 {
                    Ok(spec_exact_choice(cfg, track_rate))
                } else {
                    let preferred2 = if exact {
                        Some(spec_exact_choice(cfg, track_rate))
                    } else {
                        preferred
                    };
                    let fallback2 = if fallback is None || is_f32 {
                        Some(spec_fallback_choice(cfg))
                    } else {
                        fallback
                    };
                    Err((preferred2, fallback2))
                }
            },
        }
    }
}

/// What the whole scan settles on: the early float match, else the
/// preferred exact match, else the fallback, else nothing.
pub open spec fn spec_selected(
    configs: Seq<ConfigRange>,
    track_rate: u32,
    track_channels: u16,
) -> Option<ChosenConfig> {
    match spec_select(configs, track_rate, track_channels) {
        Ok(done) => Some(done),
        Err((preferred, fallback)) => if preferred is Some {
            preferred
        } else {
            fallback
        },
    }
}

/// Chooses the stream configuration for a track from the advertised
/// ranges; `None` only when the device advertises nothing.
pub fn select_stream_config(
    configs: &Vec<ConfigRange>,
    track_rate: u32,
    track_channels: u16,
) -> (r: Option<ChosenConfig>)
    ensures
        r == spec_selected(configs@, track_rate, track_channels),
        r is None <==> configs@.len() == 0,
{
    let mut preferred: Option<ChosenConfig> = None;
    let mut fallback: Option<ChosenConfig> = None;
    let mut i: usize = 0;
    while i < configs.len()
        invariant
            i <= configs@.len(),
            spec_select(configs@.subrange(0, i as int), track_rate, track_channels) == Err::<
                ChosenConfig,
                _,
            >((preferred, fallback)),
            i > 0 ==> fallback is Some,
        decreases configs@.len() - i,
    {
        let cfg = configs[i];
        let exact = cfg.channels == track_channels && cfg.min_rate <= track_rate && track_rate
            <= cfg.max_rate;
        let is_f32 = matches!(cfg.sample_format, SampleFormat::F32);
        let chosen = ChosenConfig {
            channels: cfg.channels,
            sample_rate: track_rate,
            sample_format: cfg.sample_format,
            exact_rate: true,
        };
        proof {
            assert(configs@.subrange(0, i + 1).drop_last() =~= configs@.subrange(0, i as int));
            assert(configs@.subrange(0, i + 1).last() == configs@[i as int]);
        }
        if exact && is_f32 {
            proof {
                lemma_select_done(configs@, i + 1, track_rate, track_channels);
            }
            return Some(chosen);
        }
        if exact {
            preferred = Some(chosen);
        }
        if fallback.is_none() || is_f32 {
            fallback = Some(ChosenConfig {
                channels: cfg.channels,
                sample_rate: cfg.max_rate,
                sample_format: cfg.sample_format,
                exact_rate: false,
            });
        }
        i += 1;
    }
    proof {
        assert(configs@.subrange(0, configs@.len() as int) =~= configs@);
    }
    if preferred.is_some() {
        preferred
    } else {
        fallback
    }
}

/// Once a prefix of the scan has settled on an early match, the rest of
/// the list cannot change it.
proof fn lemma_select_done(
    configs: Seq<ConfigRange>,
    k: int,
    track_rate: u32,
    track_channels: u16,
)
    requires
        0 <= k <= configs.len(),
        spec_select(configs.subrange(0, k), track_rate, track_channels) is Ok,
    ensures
        spec_select(configs, track_rate, track_channels) == spec_select(
            configs.subrange(0, k),
            track_rate,
            track_channels,
        ),
    decreases configs.len() - k,
{
    if k < configs.len() {
        assert(configs.subrange(0, k + 1).drop_last() =~= configs.subrange(0, k));
        lemma_select_done(configs, k + 1, track_rate, track_channels);
    } else {
        assert(configs.subrange(0, configs.len() as int) =~= configs);
    }
}

} // verus!
