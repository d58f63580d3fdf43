//! Minimal RIFF/WAVE writer for 32-bit float stems.
//!
//! Stems are cached as WAV files whose samples are IEEE-754 single
//! patterns written little-endian after a fixed 44-byte header (format
//! tag 3, IEEE float).  The whole byte image is pinned here; the host
//! layer only turns its `f32` samples into their words and writes the
//! bytes out.

use vstd::prelude::*;
use vstd::arithmetic::power2::pow2;

verus! {

/// Byte `k` of the little-endian encoding of `v`.
pub open spec fn le_byte(v: u32, k: int) -> u8 {
    ((v as nat / pow2((8 * k) as nat)) % 256) as u8
}

/// The four little-endian bytes of a 32-bit word.
pub open spec fn le32_seq(v: u32) -> Seq<u8> {
    seq![le_byte(v, 0), le_byte(v, 1), le_byte(v, 2), le_byte(v, 3)]
}

/// The two little-endian bytes of a 16-bit word.
pub open spec fn le16_seq(v: u16) -> Seq<u8> {
    seq![le_byte(v as u32, 0), le_byte(v as u32, 1)]
}

/// Appends the four little-endian bytes of `v`.
fn push_le32(out: &mut Vec<u8>, v: u32)
    ensures
        final(out)@ == old(out)@ + le32_seq(v),
{
    let ghost pre = out@;
    proof {
        vstd::arithmetic::power2::lemma2_to64();
        assert(v & 0xFF == v % 0x100) by (bit_vector);
        assert((v >> 8) & 0xFF == (v / 0x100) % 0x100) by (bit_vector);
        assert((v >> 16) & 0xFF == (v / 0x10000) % 0x100) by (bit_vector);
        assert((v >> 24) & 0xFF == (v / 0x1000000) % 0x100) by (bit_vector);
    }
    out.push((v & 0xFF) as u8);
    out.push(((v >> 8) & 0xFF) as u8);
    out.push(((v >> 16) & 0xFF) as u8);
    out.push(((v >> 24) & 0xFF) as u8);
    proof {
        assert(out@.len() == pre.len() + 4);
        assert(pow2(0) == 1 && pow2(8) == 0x100 && pow2(16) == 0x10000 && pow2(24) == 0x1000000);
        assert(v as nat / 1 == v as nat);
        assert(((v & 0xFF) as u8) == le_byte(v, 0));
        assert(out@[pre.len() as int] == le_byte(v, 0));
        assert(out@[pre.len() as int + 1] == le_byte(v, 1));
        assert(out@[pre.len() as int + 2] == le_byte(v, 2));
        assert(out@[pre.len() as int + 3] == le_byte(v, 3));
        assert(out@ =~= pre + le32_seq(v));
    }
}

/// Appends the two little-endian bytes of `v`.
fn push_le16(out: &mut Vec<u8>, v: u16)
    ensures
        final(out)@ == old(out)@ + le16_seq(v),
{
    let ghost pre = out@;
    proof {
        vstd::arithmetic::power2::lemma2_to64();
        let w = v as u32;
        assert(w & 0xFF == w % 0x100) by (bit_vector);
        assert((w >> 8) & 0xFF == (w / 0x100) % 0x100) by (bit_vector);
    }
    let w = v as u32;
    out.push((w & 0xFF) as u8);
    out.push(((w >> 8) & 0xFF) as u8);
    proof {
        assert(pow2(0) == 1 && pow2(8) == 0x100);
        assert(w as nat / 1 == w as nat);
        assert(((w & 0xFF) as u8) == le_byte(w, 0));
        assert(((w >> 8) & 0xFF) as u8 == le_byte(w, 1));
        assert(out@ =~= pre + le16_seq(v));
    }
}

/// The 44-byte RIFF/WAVE header for IEEE-float samples: chunk ids, sizes,
/// format tag 3, channel count, rates and alignment.
pub open spec fn spec_wav_header(sample_rate: u32, channels: u16, data_size: u32) -> Seq<u8> {
    seq![0x52u8, 0x49u8, 0x46u8, 0x46u8] + le32_seq((36 + data_size) as u32) + seq![
        0x57u8,
        0x41u8,
        0x56u8,
        0x45u8,
    ] + seq![0x66u8, 0x6Du8, 0x74u8, 0x20u8] + le32_seq(16) + le16_seq(3) + le16_seq(channels)
        + le32_seq(sample_rate) + le32_seq((sample_rate * channels * 4) as u32) + le16_seq(
        (channels * 4) as u16,
    ) + le16_seq(32) + seq![0x64u8, 0x61u8, 0x74u8, 0x61u8] + le32_seq(data_size)
}

/// Builds the fixed WAV header.
pub fn wav_header(sample_rate: u32, channels: u16, data_size: u32) -> (r: Vec<u8>)
    requires
        1 <= channels <= 64,
        sample_rate <= 2_000_000,
        data_size <= 0xFFFF_FFDB,
    ensures
        r@ == spec_wav_header(sample_rate, channels, data_size),
        r@.len() == 44,
{
    let mut out: Vec<u8> = Vec::new();
    out.push(0x52);
    out.push(0x49);
    out.push(0x46);
    out.push(0x46);
    push_le32(&mut out, 36 + data_size);
    out.push(0x57);
    out.push(0x41);
    out.push(0x56);
    out.push(0x45);
    out.push(0x66);
    out.push(0x6D);
    out.push(0x74);
    out.push(0x20);
    push_le32(&mut out, 16);
    push_le16(&mut out, 3);
    push_le16(&mut out, channels);
    push_le32(&mut out, sample_rate);
    proof {
        assert((sample_rate as int) * (channels as int) <= 2_000_000 * 64) by (nonlinear_arith)
            requires
                sample_rate <= 2_000_000,
                channels <= 64,
        ;
    }
    push_le32(&mut out, sample_rate * (channels as u32) * 4);
    push_le16(&mut out, channels * 4);
    push_le16(&mut out, 32);
    out.push(0x64);
    out.push(0x61);
    out.push(0x74);
    out.push(0x61);
    push_le32(&mut out, data_size);
    proof {
        assert(out@ =~= spec_wav_header(sample_rate, channels, data_size));
    }
    out
}

/// The little-endian byte image of the interleaved sample words.
pub open spec fn spec_sample_bytes(samples: Seq<u32>) -> Seq<u8> {
    Seq::new(4 * samples.len(), |i: int| le_byte(samples[i / 4], i % 4))
}

/// The complete byte image of a float WAV file holding `samples`.
pub fn wav_file_bytes(samples: &Vec<u32>, sample_rate: u32, channels: u16) -> (r: Vec<u8>)
    requires
        1 <= channels <= 64,
        sample_rate <= 2_000_000,
        samples@.len() <= 0x3FFF_FFF0,
    ensures
        r@ == spec_wav_header(sample_rate, channels, (4 * samples@.len()) as u32)
            + spec_sample_bytes(samples@),
{
    let data_size = (samples.len() as u32) * 4;
    let mut out = wav_header(sample_rate, channels, data_size);
    let ghost header = out@;
    let mut i: usize = 0;
    while i < samples.len()
        invariant
            i <= samples@.len(),
            out@ == header + spec_sample_bytes(samples@.subrange(0, i as int)),
        decreases samples@.len() - i,
    {
        push_le32(&mut out, samples[i]);
        proof {
            let pre = samples@.subrange(0, i as int);
            let cur = samples@.subrange(0, i + 1);
            assert forall|k: int| 0 <= k < 4 * cur.len() implies spec_sample_bytes(cur)[k]
                == (spec_sample_bytes(pre) + le32_seq(samples@[i as int]))[k] by {
                if k < 4 * pre.len() {
                    vstd::arithmetic::div_mod::lemma_div_is_ordered(k, 4 * pre.len() - 1, 4);
                    assert(cur[k / 4] == pre[k / 4]);
                } else {
                    vstd::arithmetic::div_mod::lemma_fundamental_div_mod_converse(
                        k,
                        4,
                        i as int,
                        k - 4 * (i as int),
                    );
                    assert(cur[k / 4] == samples@[i as int]);
                }
            }
            assert(spec_sample_bytes(cur) =~= spec_sample_bytes(pre) + le32_seq(
                samples@[i as int],
            ));
        }
        i += 1;
    }
    proof {
        assert(samples@.subrange(0, samples@.len() as int) =~= samples@);
    }
    out
}

} // verus!
