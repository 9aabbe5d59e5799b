//! The PCM container encoder.
//!
//! A capture buffer of canonical Q15 samples is serialized into a classic
//! uncompressed WAV structure: a fixed 44-byte header (RIFF/WAVE magic, a
//! 16-byte `fmt ` chunk tagged PCM at 16 bits, and the `data` chunk header)
//! followed by the raw samples as little-endian signed 16-bit values.  The
//! byte layout is pinned down field by field, and a decoder plus a
//! round-trip proof tie the two directions together: re-reading an encoded
//! container yields exactly the samples, sample rate and channel count that
//! went in.

use vstd::prelude::*;

use crate::errors::AudioError;

verus! {

/// The two little-endian bytes of a 16-bit value.
pub open spec fn le16(x: int) -> Seq<u8> {
    seq![(x % 256) as u8, ((x / 256) % 256) as u8]
}

/// The four little-endian bytes of a 32-bit value.
pub open spec fn le32(x: int) -> Seq<u8> {
    seq![
        (x % 256) as u8,
        ((x / 256) % 256) as u8,
        ((x / 65536) % 256) as u8,
        ((x / 16777216) % 256) as u8,
    ]
}

/// The 16-bit value two little-endian bytes hold.
pub open spec fn rd16(bytes: Seq<u8>, off: int) -> int {
    bytes[off] + 256 * bytes[off + 1]
}

/// The 32-bit value four little-endian bytes hold.
pub open spec fn rd32(bytes: Seq<u8>, off: int) -> int {
    bytes[off] + 256 * bytes[off + 1] + 65536 * bytes[off + 2] + 16777216 * bytes[off + 3]
}

/// A canonical sample as the unsigned 16-bit value its container bytes hold
/// (two's complement).
pub open spec fn sample_as_u16(s: i16) -> int {
    if s >= 0 {
        s as int
    } else {
        s + 65536
    }
}

/// The signed sample a stored unsigned 16-bit value stands for.
pub open spec fn u16_as_sample(u: int) -> int {
    if u >= 32768 {
        u - 65536
    } else {
        u
    }
}

/// The bytes of the data chunk: each sample in order, two bytes each.
pub open spec fn spec_sample_bytes(samples: Seq<i16>) -> Seq<u8>
    decreases samples.len(),
{
    if samples.len() == 0 {
        Seq::empty()
    } else {
        spec_sample_bytes(samples.drop_last()) + le16(sample_as_u16(samples.last()))
    }
}

/// The fixed 44-byte container header for `sample_count` 16-bit samples.
pub open spec fn spec_wav_header(sample_count: int, sample_rate: u32, channel_count: u16) -> Seq<
    u8,
> {
    seq![0x52u8, 0x49u8, 0x46u8, 0x46u8]  // "RIFF"
     + le32(36 + 2 * sample_count)  // remaining file size
     + seq![0x57u8, 0x41u8, 0x56u8, 0x45u8]  // "WAVE"
     + seq![0x66u8, 0x6du8, 0x74u8, 0x20u8]  // "fmt "
     + le32(16)  // fmt chunk size
     + le16(1)  // format tag: integer PCM
     + le16(channel_count as int) + le32(sample_rate as int) + le32(
        sample_rate * channel_count * 2,
    )  // byte rate
     + le16(channel_count * 2)  // block align
     + le16(16)  // bits per sample
     + seq![0x64u8, 0x61u8, 0x74u8, 0x61u8]  // "data"
     + le32(2 * sample_count)  // data chunk size
}

/// The whole container: header followed by the data chunk.
pub open spec fn spec_wav_bytes(samples: Seq<i16>, sample_rate: u32, channel_count: u16) -> Seq<
    u8,
> {
    spec_wav_header(samples.len() as int, sample_rate, channel_count) + spec_sample_bytes(samples)
}

/// Container parameters a PCM header can carry: at least one channel, a
/// block align that fits its 16-bit field, a non-zero rate, and a byte rate
/// that fits its 32-bit field.
pub open spec fn wav_params_valid(sample_rate: u32, channel_count: u16) -> bool {
    &&& 1 <= channel_count <= 32767
    &&& sample_rate >= 1
    &&& sample_rate * channel_count * 2 <= u32::MAX
}

/// Sample data small enough for the container's 32-bit size fields.
pub open spec fn wav_size_ok(sample_count: int) -> bool {
    44 + 2 * sample_count <= u32::MAX
}

/// Appends the two little-endian bytes of a 16-bit value.
fn push_le16(out: &mut Vec<u8>, x: u16)
    ensures
        final(out)@ == old(out)@ + le16(x as int),
{
    out.push((x % 256) as u8);
    out.push((x / 256) as u8);
    proof {
        assert(out@ =~= old(out)@ + le16(x as int));
    }
}

/// Appends the four little-endian bytes of a 32-bit value.
fn push_le32(out: &mut Vec<u8>, x: u32)
    ensures
        final(out)@ == old(out)@ + le32(x as int),
{
    out.push((x % 256) as u8);
    out.push(((x / 256) % 256) as u8);
    out.push(((x / 65536) % 256) as u8);
    out.push((x / 16777216) as u8);
    proof {
        assert(out@ =~= old(out)@ + le32(x as int));
    }
}

/// The data chunk grows by exactly one sample's bytes.
proof fn lemma_sample_bytes_push(samples: Seq<i16>, s: i16)
    ensures
        spec_sample_bytes(samples.push(s)) == spec_sample_bytes(samples) + le16(sample_as_u16(s)),
{
    let pushed = samples.push(s);
    assert(pushed.drop_last() =~= samples);
    assert(pushed.last() == s);
}

/// The data chunk holds two bytes per sample.
pub proof fn lemma_sample_bytes_len(samples: Seq<i16>)
    ensures
        spec_sample_bytes(samples).len() == 2 * samples.len(),
    decreases samples.len(),
{
    if samples.len() > 0 {
        lemma_sample_bytes_len(samples.drop_last());
    }
}


/// An encoded PCM container together with the format it was written at.
#[derive(Clone, PartialEq, Debug)]
pub struct PcmContainer {
    /// Sample rate the container is tagged with, in Hz.
    pub sample_rate: u32,
    /// Channel count the container is tagged with.
    pub channel_count: u16,
    /// Output bit depth; the encoder always writes 16-bit integer PCM.
    pub bit_depth: u16,
    /// The container bytes, handed to the caller as an opaque blob.
    pub data: Vec<u8>,
}

/// Serializes canonical Q15 samples into a PCM container.
///
/// Succeeds exactly on parameters and sizes the container format can carry;
/// on success the bytes are pinned to `spec_wav_bytes`, so the container is
/// binary-compatible with any standard WAV reader.
#[verifier::rlimit(50)]
pub fn encode_wav(samples: &Vec<i16>, sample_rate: u32, channel_count: u16) -> (r: Result<
    Vec<u8>,
    AudioError,
>)
    ensures
        wav_params_valid(sample_rate, channel_count) && wav_size_ok(samples@.len() as int)
            ==> (r matches Ok(b) && b@ == spec_wav_bytes(samples@, sample_rate, channel_count)),
        !wav_params_valid(sample_rate, channel_count) ==> r == Err::<Vec<u8>, AudioError>(
            AudioError::WriterInitFailed,
        ),
        wav_params_valid(sample_rate, channel_count) && !wav_size_ok(samples@.len() as int)
            ==> r == Err::<Vec<u8>, AudioError>(AudioError::WriteFailed),
{
    if channel_count == 0 || channel_count > 32767 || sample_rate == 0 {
        return Err(AudioError::WriterInitFailed);
    }
    proof {
        assert((sample_rate as int) * (channel_count as int) * 2 < 0x8000_0000_0000_0000)
            by (nonlinear_arith)
            requires
                sample_rate <= 0xffff_ffffu32,
                channel_count <= 0xffffu16,
        ;
    }
    let byte_rate_wide: u64 = (sample_rate as u64) * (channel_count as u64) * 2;
    if byte_rate_wide > u32::MAX as u64 {
        return Err(AudioError::WriterInitFailed);
    }
    let byte_rate: u32 = byte_rate_wide as u32;
    if samples.len() as u64 > ((u32::MAX as u64) - 44) / 2 {
        return Err(AudioError::WriteFailed);
    }
    let data_size: u32 = 2 * (samples.len() as u32);
    let riff_size: u32 = 36 + data_size;

    let mut out: Vec<u8> = Vec::new();
    out.push(0x52);  // 'R'
    out.push(0x49);  // 'I'
    out.push(0x46);  // 'F'
    out.push(0x46);  // 'F'
    push_le32(&mut out, riff_size);
    out.push(0x57);  // 'W'
    out.push(0x41);  // 'A'
    out.push(0x56);  // 'V'
    out.push(0x45);  // 'E'
    out.push(0x66);  // 'f'
    out.push(0x6d);  // 'm'
    out.push(0x74);  // 't'
    out.push(0x20);  // ' '
    push_le32(&mut out, 16);
    push_le16(&mut out, 1);
    push_le16(&mut out, channel_count);
    push_le32(&mut out, sample_rate);
    push_le32(&mut out, byte_rate);
    push_le16(&mut out, 2 * channel_count);
    push_le16(&mut out, 16);
    out.push(0x64);  // 'd'
    out.push(0x61);  // 'a'
    out.push(0x74);  // 't'
    out.push(0x61);  // 'a'
    push_le32(&mut out, data_size);
    proof {
        assert(out@ =~= spec_wav_header(samples@.len() as int, sample_rate, channel_count));
    }

    let ghost header = out@;
    let mut i: usize = 0;
    while i < samples.len()
        invariant
            i <= samples@.len(),
            out@ == header + spec_sample_bytes(samples@.subrange(0, i as int)),
        decreases samples@.len() - i,
    {
        let s: i16 = samples[i];
        let u: u16 = if s >= 0 {
            s as u16
        } else {
            ((s as i32) + 65536) as u16
        };
        assert(u as int == sample_as_u16(samples@[i as int]));
        push_le16(&mut out, u);
        proof {
            assert(samples@.subrange(0, i as int).push(samples@[i as int]) =~= samples@.subrange(
                0,
                i as int + 1,
            ));
            lemma_sample_bytes_push(samples@.subrange(0, i as int), samples@[i as int]);
            assert(out@ =~= header + spec_sample_bytes(samples@.subrange(0, i as int + 1)));
        }
        i = i + 1;
    }
    proof {
        assert(samples@.subrange(0, samples@.len() as int) =~= samples@);
    }
    Ok(out)
}


/// The container shape the decoder accepts: the classic 44-byte header,
/// integer PCM at 16 bits, consistent sizes, and a whole number of samples.
pub open spec fn wav_header_shape_ok(bytes: Seq<u8>) -> bool {
    &&& bytes.len() >= 44
    &&& bytes[0] == 0x52 && bytes[1] == 0x49 && bytes[2] == 0x46 && bytes[3] == 0x46  // "RIFF"
    &&& rd32(bytes, 4) == bytes.len() - 8
    &&& bytes[8] == 0x57 && bytes[9] == 0x41 && bytes[10] == 0x56 && bytes[11] == 0x45  // "WAVE"
    &&& bytes[12] == 0x66 && bytes[13] == 0x6d && bytes[14] == 0x74 && bytes[15] == 0x20  // "fmt "
    &&& rd32(bytes, 16) == 16
    &&& rd16(bytes, 20) == 1
    &&& rd16(bytes, 22) >= 1
    &&& rd32(bytes, 24) >= 1
    &&& rd16(bytes, 34) == 16
    &&& bytes[36] == 0x64 && bytes[37] == 0x61 && bytes[38] == 0x74 && bytes[39] == 0x61  // "data"
    &&& rd32(bytes, 40) == bytes.len() - 44
    &&& (bytes.len() - 44) % 2 == 0
}

/// The samples a well-shaped container's data chunk holds.
pub open spec fn spec_decoded_samples(bytes: Seq<u8>) -> Seq<i16> {
    Seq::new(
        (((bytes.len() - 44) / 2) as nat),
        |i: int| u16_as_sample(rd16(bytes, 44 + 2 * i)) as i16,
    )
}

/// What re-reading a container yields: the samples, sample rate and channel
/// count of any byte sequence in the accepted container shape.
pub open spec fn spec_decode_wav(bytes: Seq<u8>) -> Option<(Seq<i16>, u32, u16)> {
    if wav_header_shape_ok(bytes) {
        Some((spec_decoded_samples(bytes), rd32(bytes, 24) as u32, rd16(bytes, 22) as u16))
    } else {
        None
    }
}

/// Two little-endian bytes reassemble into the value they were split from.
proof fn lemma_le16_value(x: int)
    requires
        0 <= x < 65536,
    ensures
        (x % 256) + 256 * ((x / 256) % 256) == x,
{
    vstd::arithmetic::div_mod::lemma_fundamental_div_mod(x, 256);
}

/// Four little-endian bytes reassemble into the value they were split from.
proof fn lemma_le32_value(x: int)
    requires
        0 <= x < 0x1_0000_0000,
    ensures
        (x % 256) + 256 * ((x / 256) % 256) + 65536 * ((x / 65536) % 256) + 16777216 * ((x
            / 16777216) % 256) == x,
{
    vstd::arithmetic::div_mod::lemma_fundamental_div_mod(x, 256);
    vstd::arithmetic::div_mod::lemma_fundamental_div_mod(x / 256, 256);
    vstd::arithmetic::div_mod::lemma_fundamental_div_mod(x / 65536, 256);
    assert(x / 256 / 256 == x / 65536) by (nonlinear_arith);
    assert(x / 65536 / 256 == x / 16777216) by (nonlinear_arith);
    assert(x / 16777216 % 256 == x / 16777216);
}

/// The bytes of sample `i` sit at offsets `2 * i` and `2 * i + 1` of the
/// data chunk.
proof fn lemma_sample_bytes_index(samples: Seq<i16>, i: int)
    requires
        0 <= i < samples.len(),
    ensures
        spec_sample_bytes(samples)[2 * i] == (sample_as_u16(samples[i]) % 256) as u8,
        spec_sample_bytes(samples)[2 * i + 1] == ((sample_as_u16(samples[i]) / 256) % 256) as u8,
    decreases samples.len(),
{
    lemma_sample_bytes_len(samples.drop_last());
    if i < samples.len() - 1 {
        lemma_sample_bytes_index(samples.drop_last(), i);
    }
}

/// Reads the 16-bit value at `off`.
fn read16(bytes: &Vec<u8>, off: usize) -> (r: u16)
    requires
        off + 1 < bytes@.len(),
    ensures
        r as int == rd16(bytes@, off as int),
{
    let n: usize = bytes.len();
    assert(off + 1 < n);
    (bytes[off] as u16) + 256 * (bytes[off + 1] as u16)
}

/// Reads the 32-bit value at `off`.
fn read32(bytes: &Vec<u8>, off: usize) -> (r: u32)
    requires
        off + 3 < bytes@.len(),
    ensures
        r as int == rd32(bytes@, off as int),
{
    let n: usize = bytes.len();
    assert(off + 3 < n);
    (bytes[off] as u32) + 256 * (bytes[off + 1] as u32) + 65536 * (bytes[off + 2] as u32)
        + 16777216 * (bytes[off + 3] as u32)
}

/// Parses a PCM container back into its samples, sample rate and channel
/// count, accepting exactly the container shape the encoder emits.
pub fn decode_wav(bytes: &Vec<u8>) -> (r: Option<(Vec<i16>, u32, u16)>)
    ensures
        match r {
            Some(t) => spec_decode_wav(bytes@) == Some((t.0@, t.1, t.2)),
            None => spec_decode_wav(bytes@) is None,
        },
{
    if bytes.len() < 44 {
        return None;
    }
    if bytes[0] != 0x52 || bytes[1] != 0x49 || bytes[2] != 0x46 || bytes[3] != 0x46 {
        return None;
    }
    if bytes[8] != 0x57 || bytes[9] != 0x41 || bytes[10] != 0x56 || bytes[11] != 0x45 {
        return None;
    }
    if bytes[12] != 0x66 || bytes[13] != 0x6d || bytes[14] != 0x74 || bytes[15] != 0x20 {
        return None;
    }
    if read32(bytes, 16) != 16 || read16(bytes, 20) != 1 || read16(bytes, 34) != 16 {
        return None;
    }
    if bytes[36] != 0x64 || bytes[37] != 0x61 || bytes[38] != 0x74 || bytes[39] != 0x61 {
        return None;
    }
    let riff_size: u32 = read32(bytes, 4);
    if riff_size as u64 != bytes.len() as u64 - 8 {
        return None;
    }
    let data_size: u32 = read32(bytes, 40);
    if data_size as u64 != bytes.len() as u64 - 44 {
        return None;
    }
    if data_size % 2 != 0 {
        return None;
    }
    let channel_count: u16 = read16(bytes, 22);
    let sample_rate: u32 = read32(bytes, 24);
    if channel_count == 0 || sample_rate == 0 {
        return None;
    }

    let count: usize = (data_size / 2) as usize;
    let mut samples: Vec<i16> = Vec::new();
    let mut i: usize = 0;
    while i < count
        invariant
            i <= count,
            bytes@.len() == 44 + 2 * count,
            bytes@.len() <= usize::MAX,
            samples@.len() == i,
            forall|j: int|
                0 <= j < i ==> samples@[j] == u16_as_sample(rd16(bytes@, 44 + 2 * j)) as i16,
        decreases count - i,
    {
        let u: u16 = read16(bytes, 44 + 2 * i);
        let s: i16 = if u < 32768 {
            u as i16
        } else {
            ((u as i32) - 65536) as i16
        };
        samples.push(s);
        i = i + 1;
    }
    proof {
        assert(samples@ =~= spec_decoded_samples(bytes@));
    }
    Some((samples, sample_rate, channel_count))
}

/// Field-by-field reading of the encoded header.
#[verifier::rlimit(100)]
proof fn lemma_wav_header_fields(n: int, sample_rate: u32, channel_count: u16)
    requires
        0 <= n,
        wav_params_valid(sample_rate, channel_count),
        44 + 2 * n <= u32::MAX,
    ensures
        spec_wav_header(n, sample_rate, channel_count).len() == 44,
        ({
            let h = spec_wav_header(n, sample_rate, channel_count);
            &&& h[0] == 0x52 && h[1] == 0x49 && h[2] == 0x46 && h[3] == 0x46
            &&& rd32(h, 4) == 36 + 2 * n
            &&& h[8] == 0x57 && h[9] == 0x41 && h[10] == 0x56 && h[11] == 0x45
            &&& h[12] == 0x66 && h[13] == 0x6d && h[14] == 0x74 && h[15] == 0x20
            &&& rd32(h, 16) == 16
            &&& rd16(h, 20) == 1
            &&& rd16(h, 22) == channel_count
            &&& rd32(h, 24) == sample_rate
            &&& rd16(h, 34) == 16
            &&& h[36] == 0x64 && h[37] == 0x61 && h[38] == 0x74 && h[39] == 0x61
            &&& rd32(h, 40) == 2 * n
        }),
{
    let h = spec_wav_header(n, sample_rate, channel_count);
    lemma_le32_value(36 + 2 * n);
    lemma_le32_value(16);
    lemma_le16_value(1);
    lemma_le16_value(channel_count as int);
    lemma_le32_value(sample_rate as int);
    lemma_le16_value(16);
    lemma_le32_value(2 * n);
    assert(rd32(h, 4) == 36 + 2 * n);
    assert(rd32(h, 16) == 16);
    assert(rd16(h, 20) == 1);
    assert(rd16(h, 22) == channel_count);
    assert(rd32(h, 24) == sample_rate);
    assert(rd16(h, 34) == 16);
    assert(rd32(h, 40) == 2 * n);
}

/// Round trip: re-reading an encoded container yields exactly the samples,
/// sample rate and channel count that went in.
#[verifier::rlimit(100)]
pub proof fn lemma_wav_round_trip(samples: Seq<i16>, sample_rate: u32, channel_count: u16)
    requires
        wav_params_valid(sample_rate, channel_count),
        wav_size_ok(samples.len() as int),
    ensures
        spec_decode_wav(spec_wav_bytes(samples, sample_rate, channel_count)) == Some(
            (samples, sample_rate, channel_count),
        ),
{
    let n = samples.len() as int;
    let h = spec_wav_header(n, sample_rate, channel_count);
    let d = spec_sample_bytes(samples);
    let b = spec_wav_bytes(samples, sample_rate, channel_count);
    lemma_sample_bytes_len(samples);
    lemma_wav_header_fields(n, sample_rate, channel_count);
    assert(b.len() == 44 + 2 * n);
    assert forall|i: int| 0 <= i < 44 implies b[i] == h[i] by {}
    assert(rd32(b, 4) == rd32(h, 4));
    assert(rd32(b, 16) == rd32(h, 16));
    assert(rd16(b, 20) == rd16(h, 20));
    assert(rd16(b, 22) == rd16(h, 22));
    assert(rd32(b, 24) == rd32(h, 24));
    assert(rd16(b, 34) == rd16(h, 34));
    assert(rd32(b, 40) == rd32(h, 40));
    assert(wav_header_shape_ok(b));

    assert forall|i: int| 0 <= i < n implies spec_decoded_samples(b)[i] == samples[i] by {
        lemma_sample_bytes_index(samples, i);
        assert(b[44 + 2 * i] == d[2 * i]);
        assert(b[44 + 2 * i + 1] == d[2 * i + 1]);
        lemma_le16_value(sample_as_u16(samples[i]));
        assert(rd16(b, 44 + 2 * i) == sample_as_u16(samples[i]));
    }
    assert(spec_decoded_samples(b) =~= samples);
}

} // verus!
