//! Spatializer parameter store.
//!
//! Four virtual sources sit in a room around a centered listener; each
//! frame the host derives per-ear delays, gains, head-shadow filters and
//! six image-source reflections from these parameters.  The room bounds,
//! the source table, the enable switch and the dirty handshake are
//! verified here; the trigonometry and the delay-line arithmetic run in
//! the host layer on the decoded values, as does the arc placement of
//! `auto_orchestra`.

use vstd::prelude::*;
use crate::bits::{clamp_bits, spec_clamp_bits, lemma_f32_key_values};
use crate::filters::{ZERO_BITS, ONE_BITS};

verus! {

/// Bit pattern of 2.0 m, the lower bound of every room dimension.
pub const ROOM_DIM_MIN_BITS: u32 = 0x4000_0000;

/// Bit pattern of 50.0 m, the width and length ceiling.
pub const ROOM_WL_MAX_BITS: u32 = 0x4248_0000;

/// Bit pattern of 20.0 m, the height ceiling.
pub const ROOM_H_MAX_BITS: u32 = 0x41A0_0000;

/// Most samples of inter-aural delay the direct-path rings hold.
pub const MAX_DELAY_SAMPLES: usize = 128;

/// Image-source reflections computed per source.
pub const NUM_REFLECTIONS: usize = 6;

/// One virtual source: its position words and activity flag.
pub struct SpatialSource {
    pub x_bits: u32,
    pub y_bits: u32,
    pub z_bits: u32,
    pub active: bool,
}

/// Stable name of each source slot, in slot order: vocals, drums, bass,
/// other.
pub fn source_name(index: usize) -> (r: &'static str)
    requires
        index < 4,
    ensures
        index == 0 ==> r@ == "vocals"@,
        index == 1 ==> r@ == "drums"@,
        index == 2 ==> r@ == "bass"@,
        index == 3 ==> r@ == "other"@,
{
    match index {
        0 => "vocals",
        1 => "drums",
        2 => "bass",
        _ => "other",
    }
}

/// Spatializer parameters: the enable switch, room geometry words, and
/// the four source slots.
pub struct SpatialRoomNode {
    pub enabled: bool,
    pub needs_update: bool,
    pub width_bits: u32,
    pub length_bits: u32,
    pub height_bits: u32,
    pub damping_bits: u32,
    pub sample_rate_hz: u32,
    pub sources: Vec<SpatialSource>,
}

impl SpatialRoomNode {
    /// Spatializer validity: exactly four source slots.
    pub open spec fn wf(self) -> bool {
        self.sources@.len() == 4
    }

    /// Disabled node in an 8 x 10 x 3.5 m room, damping 0.5, with the four
    /// sources active at their default stage positions.
    pub fn new(sample_rate_hz: u32) -> (r: SpatialRoomNode)
        ensures
            r.wf(),
            !r.enabled,
            r.needs_update,
            r.width_bits == 0x4100_0000u32,
            r.length_bits == 0x4120_0000u32,
            r.height_bits == 0x4060_0000u32,
            r.damping_bits == 0x3F00_0000u32,
            r.sample_rate_hz == if sample_rate_hz >= 8000 {
                sample_rate_hz
            } else {
                8000
            },
            forall|i: int| 0 <= i < 4 ==> (#[trigger] r.sources@[i]).active,
    {
        let mut sources: Vec<SpatialSource> = Vec::new();
        // Vocals: front-center-left.
        sources.push(SpatialSource {
            x_bits: 0x4000_0000,
            y_bits: 0x40E0_0000,
            z_bits: 0x3FD9_999A,
            active: true,
        });
        // Drums: front-center-right.
        sources.push(SpatialSource {
            x_bits: 0x40C0_0000,
            y_bits: 0x40E0_0000,
            z_bits: 0x3FD9_999A,
            active: true,
        });
        // Bass: front-center.
        sources.push(SpatialSource {
            x_bits: 0x4080_0000,
            y_bits: 0x4100_0000,
            z_bits: 0x3FD9_999A,
            active: true,
        });
        // Other: rear.
        sources.push(SpatialSource {
            x_bits: 0x4080_0000,
            y_bits: 0x4040_0000,
            z_bits: 0x3FD9_999A,
            active: true,
        });
        SpatialRoomNode {
            enabled: false,
            needs_update: true,
            width_bits: 0x4100_0000,
            length_bits: 0x4120_0000,
            height_bits: 0x4060_0000,
            damping_bits: 0x3F00_0000,
            sample_rate_hz: if sample_rate_hz >= 8000 {
                sample_rate_hz
            } else {
                8000
            },
            sources,
        }
    }

    /// Turns the binaural path on or off; off is an exact bypass in the
    /// host's sample path.
    pub fn set_enabled(&mut self, enabled: bool)
        ensures
            *final(self) == (SpatialRoomNode { enabled, ..*old(self) }),
    {
        self.enabled = enabled;
    }

    pub fn is_enabled(&self) -> (r: bool)
        ensures
            r == self.enabled,
    {
        self.enabled
    }

    /// Stores the room dimensions clamped into [2, 50] m (width, length)
    /// and [2, 20] m (height); the geometry is stale afterwards.
    pub fn set_room_size(&mut self, width: u32, length: u32, height: u32)
        ensures
            *final(self) == (SpatialRoomNode {
                width_bits: spec_clamp_bits(width, ROOM_DIM_MIN_BITS, ROOM_WL_MAX_BITS),
                length_bits: spec_clamp_bits(length, ROOM_DIM_MIN_BITS, ROOM_WL_MAX_BITS),
                height_bits: spec_clamp_bits(height, ROOM_DIM_MIN_BITS, ROOM_H_MAX_BITS),
                needs_update: true,
                ..*old(self)
            }),
    {
        proof {
            lemma_f32_key_values(ROOM_DIM_MIN_BITS);
            lemma_f32_key_values(ROOM_WL_MAX_BITS);
            lemma_f32_key_values(ROOM_H_MAX_BITS);
        }
        self.width_bits = clamp_bits(width, ROOM_DIM_MIN_BITS, ROOM_WL_MAX_BITS);
        self.length_bits = clamp_bits(length, ROOM_DIM_MIN_BITS, ROOM_WL_MAX_BITS);
        self.height_bits = clamp_bits(height, ROOM_DIM_MIN_BITS, ROOM_H_MAX_BITS);
        self.needs_update = true;
    }

    /// Stores the wall damping clamped into [0.0, 1.0]; stale.
    pub fn set_damping(&mut self, val: u32)
        ensures
            *final(self) == (SpatialRoomNode {
                damping_bits: spec_clamp_bits(val, ZERO_BITS, ONE_BITS),
                needs_update: true,
                ..*old(self)
            }),
    {
        proof {
            lemma_f32_key_values(ZERO_BITS);
            lemma_f32_key_values(ONE_BITS);
        }
        self.damping_bits = clamp_bits(val, ZERO_BITS, ONE_BITS);
        self.needs_update = true;
    }

    /// Moves one source; an out-of-range index changes nothing.
    pub fn set_source_position(&mut self, index: usize, x: u32, y: u32, z: u32)
        ensures
            index >= old(self).sources@.len() ==> *final(self) == *old(self),
            index < old(self).sources@.len() ==> *final(self) == (SpatialRoomNode {
                sources: final(self).sources,
                needs_update: true,
                ..*old(self)
            }),
            index < old(self).sources@.len() ==> final(self).sources@ == old(
                self,
            ).sources@.update(
                index as int,
                (SpatialSource {
                    x_bits: x,
                    y_bits: y,
                    z_bits: z,
                    ..old(self).sources@[index as int]
                }),
            ),
    {
        if index < self.sources.len() {
            let active = self.sources[index].active;
            *vstd::std_specs::vec::vec_index_mut(&mut self.sources, index) = SpatialSource {
                x_bits: x,
                y_bits: y,
                z_bits: z,
                active,
            };
            self.needs_update = true;
        }
    }

    /// Activates or mutes one source; an out-of-range index changes
    /// nothing.
    pub fn set_source_active(&mut self, index: usize, active: bool)
        ensures
            index >= old(self).sources@.len() ==> *final(self) == *old(self),
            index < old(self).sources@.len() ==> *final(self) == (SpatialRoomNode {
                sources: final(self).sources,
                ..*old(self)
            }),
            index < old(self).sources@.len() ==> final(self).sources@ == old(
                self,
            ).sources@.update(
                index as int,
                (SpatialSource { active, ..old(self).sources@[index as int] }),
            ),
    {
        if index < self.sources.len() {
            let s = &self.sources[index];
            let x = s.x_bits;
            let y = s.y_bits;
            let z = s.z_bits;
            *vstd::std_specs::vec::vec_index_mut(&mut self.sources, index) = SpatialSource {
                x_bits: x,
                y_bits: y,
                z_bits: z,
                active,
            };
        }
    }

    /// Snapshot of every source as (x, y, z, active).
    pub fn source_positions(&self) -> (r: Vec<(u32, u32, u32, bool)>)
        ensures
            r@.len() == self.sources@.len(),
            forall|i: int|
                0 <= i < r@.len() ==> #[trigger] r@[i] == (
                    self.sources@[i].x_bits,
                    self.sources@[i].y_bits,
                    self.sources@[i].z_bits,
                    self.sources@[i].active,
                ),
    {
        let mut out: Vec<(u32, u32, u32, bool)> = Vec::new();
        let mut i: usize = 0;
        while i < self.sources.len()
            invariant
                i <= self.sources@.len(),
                out@.len() == i,
                forall|j: int|
                    0 <= j < i ==> #[trigger] out@[j] == (
                        self.sources@[j].x_bits,
                        self.sources@[j].y_bits,
                        self.sources@[j].z_bits,
                        self.sources@[j].active,
                    ),
            decreases self.sources@.len() - i,
        {
            let s = &self.sources[i];
            out.push((s.x_bits, s.y_bits, s.z_bits, s.active));
            i += 1;
        }
        out
    }

    /// Adopts a new sample rate (floored at 8 kHz); geometry goes stale
    /// when it changed.
    pub fn set_sample_rate(&mut self, sample_rate_hz: u32)
        ensures
            final(self).sample_rate_hz == if sample_rate_hz >= 8000 {
                sample_rate_hz
            } else {
                8000
            },
            final(self).sample_rate_hz != old(self).sample_rate_hz ==> final(self).needs_update,
            final(self).sample_rate_hz == old(self).sample_rate_hz ==> *final(self) == *old(self),
    {
        let rate = if sample_rate_hz >= 8000 {
            sample_rate_hz
        } else {
            8000
        };
        if rate != self.sample_rate_hz {
            self.sample_rate_hz = rate;
            self.needs_update = true;
        }
    }

    /// The audio thread's take of the dirty flag before it rebuilds the
    /// per-source geometry.
    pub fn consume_dirty(&mut self) -> (r: bool)
        ensures
            r == old(self).needs_update,
            *final(self) == (SpatialRoomNode { needs_update: false, ..*old(self) }),
    {
        let was = self.needs_update;
        self.needs_update = false;
        was
    }
}

} // verus!
