//! Encoding a drained sample sequence into a PCM WAV container.
//!
//! The container format is fixed: 16-bit signed little-endian samples, two
//! channels, 44.1 kHz. Every derived header field (byte rate, block align,
//! chunk sizes) is computed from the same three named constants, so the
//! header cannot disagree with itself; a transport configured differently
//! must convert before buffering, since the container format does not bend.

use vstd::prelude::*;

verus! {

/// Samples per second in the container.
pub const SAMPLE_RATE: u32 = 44100;

/// Interleaved channels in the container.
pub const CHANNELS: u16 = 2;

/// Width of one sample.
pub const BITS_PER_SAMPLE: u16 = 16;

/// The most samples one turn may encode: any more and the container's
/// 32-bit chunk-size field could not hold the data.
pub const MAX_TURN_SAMPLES: usize = 2147483629;

/// Two little-endian bytes of a 16-bit value.
pub open spec fn le16(x: u16) -> Seq<u8> {
    seq![(x & 0xff) as u8, ((x >> 8) & 0xff) as u8]
}

/// Four little-endian bytes of a 32-bit value.
pub open spec fn le32(x: u32) -> Seq<u8> {
    seq![
        (x & 0xff) as u8,
        ((x >> 8) & 0xff) as u8,
        ((x >> 16) & 0xff) as u8,
        ((x >> 24) & 0xff) as u8,
    ]
}

/// The sample data: each sample as two little-endian bytes, in order.
pub open spec fn pcm_bytes(samples: Seq<i16>) -> Seq<u8>
    decreases samples.len(),
{
    if samples.len() == 0 {
        Seq::empty()
    } else {
        pcm_bytes(samples.drop_last()) + le16(samples.last() as u16)
    }
}

/// The ASCII tag "RIFF".
pub open spec fn riff_tag() -> Seq<u8> {
    seq![0x52u8, 0x49u8, 0x46u8, 0x46u8]
}

/// The ASCII tag "WAVE".
pub open spec fn wave_tag() -> Seq<u8> {
    seq![0x57u8, 0x41u8, 0x56u8, 0x45u8]
}

/// The ASCII tag "fmt " that opens the format chunk.
pub open spec fn fmt_tag() -> Seq<u8> {
    seq![0x66u8, 0x6du8, 0x74u8, 0x20u8]
}

/// The ASCII tag "data" that opens the data chunk.
pub open spec fn data_tag() -> Seq<u8> {
    seq![0x64u8, 0x61u8, 0x74u8, 0x61u8]
}

/// Bytes the container stores per second, derived from the three format
/// constants.
pub open spec fn spec_byte_rate() -> u32 {
    (SAMPLE_RATE as int * CHANNELS as int * (BITS_PER_SAMPLE as int / 8)) as u32
}

/// Bytes per sample frame across all channels, derived likewise.
pub open spec fn spec_block_align() -> u16 {
    (CHANNELS as int * (BITS_PER_SAMPLE as int / 8)) as u16
}

/// The 44 header bytes for a container holding `sample_count` samples.
pub open spec fn wav_header(sample_count: nat) -> Seq<u8> {
    riff_tag() + le32((36 + 2 * sample_count) as u32) + wave_tag() + fmt_tag() + le32(16) + le16(1)
        + le16(CHANNELS) + le32(SAMPLE_RATE) + le32(spec_byte_rate()) + le16(spec_block_align())
        + le16(BITS_PER_SAMPLE) + data_tag() + le32((2 * sample_count) as u32)
}

/// The whole container: header, then the sample data.
pub open spec fn wav_file(samples: Seq<i16>) -> Seq<u8> {
    wav_header(samples.len()) + pcm_bytes(samples)
}

/// Append the two little-endian bytes of a 16-bit value.
fn push_le16(out: &mut Vec<u8>, x: u16)
    ensures
        final(out)@ == old(out)@ + le16(x),
{
    out.push((x & 0xff) as u8);
    out.push(((x >> 8) & 0xff) as u8);
    proof {
        assert(out@ =~= old(out)@ + le16(x));
    }
}

/// Append the four little-endian bytes of a 32-bit value.
fn push_le32(out: &mut Vec<u8>, x: u32)
    ensures
        final(out)@ == old(out)@ + le32(x),
{
    out.push((x & 0xff) as u8);
    out.push(((x >> 8) & 0xff) as u8);
    out.push(((x >> 16) & 0xff) as u8);
    out.push(((x >> 24) & 0xff) as u8);
    proof {
        assert(out@ =~= old(out)@ + le32(x));
    }
}

/// Encode a drained sample sequence as a complete WAV container, byte for
/// byte as `wav_file` lays it out.
pub fn encode_wav(samples: &Vec<i16>) -> (out: Vec<u8>)
    requires
        samples@.len() <= MAX_TURN_SAMPLES,
    ensures
        out@ == wav_file(samples@),
{
    let mut out: Vec<u8> = Vec::new();
    let data_len: u32 = (samples.len() as u32) * 2;
    out.push(0x52);
    out.push(0x49);
    out.push(0x46);
    out.push(0x46);
    proof {
        assert(out@ =~= riff_tag());
    }
    push_le32(&mut out, 36 + data_len);
    out.push(0x57);
    out.push(0x41);
    out.push(0x56);
    out.push(0x45);
    out.push(0x66);
    out.push(0x6d);
    out.push(0x74);
    out.push(0x20);
    push_le32(&mut out, 16);
    push_le16(&mut out, 1);
    push_le16(&mut out, CHANNELS);
    push_le32(&mut out, SAMPLE_RATE);
    push_le32(&mut out, SAMPLE_RATE * (CHANNELS as u32) * ((BITS_PER_SAMPLE as u32) / 8));
    push_le16(&mut out, CHANNELS * (BITS_PER_SAMPLE / 8));
    push_le16(&mut out, BITS_PER_SAMPLE);
    out.push(0x64);
    out.push(0x61);
    out.push(0x74);
    out.push(0x61);
    push_le32(&mut out, data_len);
    proof {
        assert(out@ =~= wav_header(samples@.len()));
        assert(pcm_bytes(samples@.take(0)) =~= Seq::<u8>::empty());
        assert(out@ =~= wav_header(samples@.len()) + pcm_bytes(samples@.take(0)));
    }
    let mut i: usize = 0;
    while i < samples.len()
        invariant
            i <= samples@.len(),
            out@ == wav_header(samples@.len()) + pcm_bytes(samples@.take(i as int)),
        decreases samples@.len() - i,
    {
        let ghost pre = out@;
        let x = samples[i];
        push_le16(&mut out, x as u16);
        proof {
            let taken = samples@.take(i + 1);
            assert(taken.drop_last() =~= samples@.take(i as int));
            assert(taken.last() == samples@[i as int]);
            assert(pcm_bytes(taken) == pcm_bytes(samples@.take(i as int)) + le16(
                samples@[i as int] as u16,
            ));
            assert(out@ =~= wav_header(samples@.len()) + pcm_bytes(taken));
        }
        i += 1;
    }
    proof {
        assert(samples@.take(samples@.len() as int) =~= samples@);
    }
    out
}

} // verus!
