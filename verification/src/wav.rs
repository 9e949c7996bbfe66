//! The sample encoder: 16-bit PCM samples to a complete WAV container.
//!
//! The container is fixed: mono, 44100 Hz, 16-bit signed little-endian PCM,
//! a 44-byte canonical RIFF/WAVE header followed by two bytes per sample.
//! `wav_bytes` is the byte-exact specification of the whole container;
//! `encode_wav` produces it and `decode_wav` inverts it.

use vstd::prelude::*;

verus! {

/// Samples per second of the fixed capture configuration.
pub const SAMPLE_RATE: u32 = 44100;

/// Channel count of the fixed capture configuration.
pub const CHANNELS: u16 = 1;

/// Bit depth of the fixed capture configuration.
pub const BITS_PER_SAMPLE: u16 = 16;

/// Bytes in the canonical RIFF/WAVE header for one PCM data chunk.
pub const HEADER_LEN: usize = 44;

/// The most samples one container can describe: the RIFF chunk size field
/// is 32 bits, so `36 + 2 * n` must fit in a `u32`.
pub const MAX_WAV_SAMPLES: usize = 2147483629;

/// The two bytes of `x` in little-endian order.
pub open spec fn le16(x: u16) -> Seq<u8> {
    seq![(x % 256) as u8, (x / 256) as u8]
}

/// The four bytes of `x` in little-endian order.
pub open spec fn le32(x: u32) -> Seq<u8> {
    seq![
        (x % 256) as u8,
        ((x / 256) % 256) as u8,
        ((x / 65536) % 256) as u8,
        (x / 16777216) as u8,
    ]
}

/// The canonical 44-byte header of a container holding `n` samples:
/// `RIFF` size, `WAVE`, one PCM `fmt ` chunk for the fixed configuration,
/// and the `data` chunk header.
pub open spec fn header_bytes(n: int) -> Seq<u8>
    recommends
        0 <= n <= MAX_WAV_SAMPLES,
{
    seq![0x52u8, 0x49u8, 0x46u8, 0x46u8] + le32((36 + 2 * n) as u32)
        + seq![0x57u8, 0x41u8, 0x56u8, 0x45u8]
        + seq![0x66u8, 0x6du8, 0x74u8, 0x20u8] + le32(16u32) + le16(1u16) + le16(CHANNELS)
        + le32(SAMPLE_RATE) + le32(88200u32) + le16(2u16) + le16(BITS_PER_SAMPLE)
        + seq![0x64u8, 0x61u8, 0x74u8, 0x61u8] + le32((2 * n) as u32)
}

/// A sample reinterpreted as its unsigned 16-bit two's-complement word.
pub open spec fn sample_word(s: i16) -> u16 {
    if s >= 0 {
        s as u16
    } else {
        (s + 0x10000) as u16
    }
}

/// The inverse of `sample_word`.
pub open spec fn word_sample(w: u16) -> i16 {
    if w < 0x8000 {
        w as i16
    } else {
        (w - 0x10000) as i16
    }
}

/// The PCM payload: each sample as two little-endian bytes, in order.
pub open spec fn pcm_bytes(samples: Seq<i16>) -> Seq<u8> {
    Seq::new(
        (2 * samples.len()) as nat,
        |i: int|
            if i % 2 == 0 {
                (sample_word(samples[i / 2]) % 256) as u8
            } else {
                (sample_word(samples[i / 2]) / 256) as u8
            },
    )
}

/// The complete container for `samples`: header, then PCM payload.
pub open spec fn wav_bytes(samples: Seq<i16>) -> Seq<u8> {
    header_bytes(samples.len() as int) + pcm_bytes(samples)
}

/// How many samples the payload of a container of `b.len()` bytes holds.
pub open spec fn wav_payload_count(b: Seq<u8>) -> int {
    (b.len() - HEADER_LEN) / 2
}

/// `b` is exactly one canonical container of the fixed configuration.
pub open spec fn wav_decode_ok(b: Seq<u8>) -> bool {
    &&& b.len() >= HEADER_LEN
    &&& (b.len() - HEADER_LEN) % 2 == 0
    &&& wav_payload_count(b) <= MAX_WAV_SAMPLES
    &&& b.subrange(0, HEADER_LEN as int) == header_bytes(wav_payload_count(b))
}

/// The samples read back from the payload of `b`.
pub open spec fn decoded_samples(b: Seq<u8>) -> Seq<i16> {
    Seq::new(
        wav_payload_count(b) as nat,
        |i: int| word_sample((b[HEADER_LEN + 2 * i] + 256 * b[HEADER_LEN + 2 * i + 1]) as u16),
    )
}

/// Clamp a scaled amplitude to the range of a signed 16-bit PCM sample.
///
/// The caller scales samples logically in `[-1.0, 1.0]` to
/// `[-32767, 32767]`; anything outside the representable range saturates at
/// the `i16` bounds, the encoder's deliberate lossy policy.
pub fn saturate_amplitude(x: i64) -> (r: i16)
    ensures
        x > i16::MAX as i64 ==> r == i16::MAX,
        x < i16::MIN as i64 ==> r == i16::MIN,
        i16::MIN as i64 <= x <= i16::MAX as i64 ==> r == x as i16,
{
    if x > i16::MAX as i64 {
        i16::MAX
    } else if x < i16::MIN as i64 {
        i16::MIN
    } else {
        x as i16
    }
}

fn push_le16(out: &mut Vec<u8>, x: u16)
    ensures
        final(out)@ == old(out)@ + le16(x),
{
    out.push((x % 256) as u8);
    out.push((x / 256) as u8);
    proof {
        assert(out@ =~= old(out)@ + le16(x));
    }
}

fn push_le32(out: &mut Vec<u8>, x: u32)
    ensures
        final(out)@ == old(out)@ + le32(x),
{
    out.push((x % 256) as u8);
    out.push(((x / 256) % 256) as u8);
    out.push(((x / 65536) % 256) as u8);
    out.push((x / 16777216) as u8);
    proof {
        assert(x / 16777216 < 256) by (nonlinear_arith);
        assert(out@ =~= old(out)@ + le32(x));
    }
}

fn push_tag(out: &mut Vec<u8>, a: u8, b: u8, c: u8, d: u8)
    ensures
        final(out)@ == old(out)@ + seq![a, b, c, d],
{
    out.push(a);
    out.push(b);
    out.push(c);
    out.push(d);
    proof {
        assert(out@ =~= old(out)@ + seq![a, b, c, d]);
    }
}

/// Build the canonical header for a container of `n` samples.
fn make_header(n: usize) -> (out: Vec<u8>)
    requires
        n <= MAX_WAV_SAMPLES,
    ensures
        out@ == header_bytes(n as int),
{
    let data_size: u32 = (2 * n) as u32;
    let mut out: Vec<u8> = Vec::new();
    push_tag(&mut out, 0x52, 0x49, 0x46, 0x46);
    push_le32(&mut out, 36 + data_size);
    push_tag(&mut out, 0x57, 0x41, 0x56, 0x45);
    push_tag(&mut out, 0x66, 0x6d, 0x74, 0x20);
    push_le32(&mut out, 16);
    push_le16(&mut out, 1);
    push_le16(&mut out, CHANNELS);
    push_le32(&mut out, SAMPLE_RATE);
    push_le32(&mut out, 88200);
    push_le16(&mut out, 2);
    push_le16(&mut out, BITS_PER_SAMPLE);
    push_tag(&mut out, 0x64, 0x61, 0x74, 0x61);
    push_le32(&mut out, data_size);
    proof {
        assert(out@ =~= header_bytes(n as int));
    }
    out
}

fn sample_to_word(s: i16) -> (w: u16)
    ensures
        w == sample_word(s),
{
    if s >= 0 {
        s as u16
    } else {
        let v: i32 = s as i32 + 65536;
        v as u16
    }
}

fn word_to_sample(w: u16) -> (s: i16)
    ensures
        s == word_sample(w),
{
    if w < 0x8000 {
        w as i16
    } else {
        let v: i32 = w as i32 - 65536;
        v as i16
    }
}

proof fn lemma_pcm_bytes_snoc(samples: Seq<i16>, i: int)
    requires
        0 <= i < samples.len(),
    ensures
        pcm_bytes(samples.take(i + 1)) == pcm_bytes(samples.take(i)) + seq![
            (sample_word(samples[i]) % 256) as u8,
            (sample_word(samples[i]) / 256) as u8,
        ],
{
    let lhs = pcm_bytes(samples.take(i + 1));
    let rhs = pcm_bytes(samples.take(i)) + seq![
        (sample_word(samples[i]) % 256) as u8,
        (sample_word(samples[i]) / 256) as u8,
    ];
    assert forall|j: int| 0 <= j < lhs.len() implies lhs[j] == rhs[j] by {
        assert(samples.take(i + 1)[j / 2] == samples[j / 2]);
        if j < 2 * i {
            assert(samples.take(i)[j / 2] == samples[j / 2]);
        } else {
            assert(j / 2 == i && j % 2 == j - 2 * i);
        }
    }
    assert(lhs =~= rhs);
}

/// Encode samples into one complete WAV container.
///
/// The result is byte for byte the container that `wav_bytes` describes:
/// the canonical header for the fixed configuration, then each sample as
/// two little-endian bytes.
pub fn encode_wav(samples: &Vec<i16>) -> (out: Vec<u8>)
    requires
        samples@.len() <= MAX_WAV_SAMPLES,
    ensures
        out@ == wav_bytes(samples@),
        out@.len() == HEADER_LEN + 2 * samples@.len(),
{
    let n = samples.len();
    let mut out = make_header(n);
    let mut i: usize = 0;
    while i < n
        invariant
            i <= n,
            n == samples@.len() <= MAX_WAV_SAMPLES,
            out@ == header_bytes(n as int) + pcm_bytes(samples@.take(i as int)),
        decreases n - i,
    {
        let w = sample_to_word(samples[i]);
        out.push((w % 256) as u8);
        out.push((w / 256) as u8);
        proof {
            lemma_pcm_bytes_snoc(samples@, i as int);
            assert(out@ =~= header_bytes(n as int) + pcm_bytes(samples@.take(i as int + 1)));
        }
        i += 1;
    }
    proof {
        assert(samples@.take(n as int) =~= samples@);
        assert(header_bytes(n as int).len() == 44);
    }
    out
}

/// Decode one complete WAV container back into its samples.
///
/// Returns `Some` exactly on the containers that `encode_wav` can produce —
/// canonical header, consistent sizes, whole payload — and then yields the
/// payload's samples in order.
pub fn decode_wav(bytes: &Vec<u8>) -> (r: Option<Vec<i16>>)
    ensures
        r is Some <==> wav_decode_ok(bytes@),
        r matches Some(samples) ==> samples@ == decoded_samples(bytes@),
{
    if bytes.len() < HEADER_LEN {
        return None;
    }
    let payload = bytes.len() - HEADER_LEN;
    if payload % 2 != 0 {
        return None;
    }
    let n = payload / 2;
    if n > MAX_WAV_SAMPLES {
        return None;
    }
    let expected = make_header(n);
    let mut i: usize = 0;
    while i < HEADER_LEN
        invariant
            i <= HEADER_LEN,
            n == wav_payload_count(bytes@) <= MAX_WAV_SAMPLES,
            bytes@.len() >= HEADER_LEN,
            (bytes@.len() - HEADER_LEN) % 2 == 0,
            expected@ == header_bytes(n as int),
            forall|j: int| 0 <= j < i ==> bytes@[j] == expected@[j],
        decreases HEADER_LEN - i,
    {
        if bytes[i] != expected[i] {
            proof {
                assert(bytes@.subrange(0, HEADER_LEN as int)[i as int] == bytes@[i as int]);
            }
            return None;
        }
        i += 1;
    }
    proof {
        assert(bytes@.subrange(0, HEADER_LEN as int) =~= header_bytes(n as int));
    }
    let mut samples: Vec<i16> = Vec::new();
    let mut k: usize = 0;
    while k < n
        invariant
            k <= n,
            n == wav_payload_count(bytes@) <= MAX_WAV_SAMPLES,
            bytes@.len() == HEADER_LEN + 2 * n,
            bytes@.len() <= usize::MAX,
            samples@ == decoded_samples(bytes@).take(k as int),
        decreases n - k,
    {
        let lo = bytes[HEADER_LEN + 2 * k] as u16;
        let hi = bytes[HEADER_LEN + 2 * k + 1] as u16;
        let s = word_to_sample(lo + hi * 256);
        samples.push(s);
        proof {
            assert(samples@ =~= decoded_samples(bytes@).take(k as int + 1));
        }
        k += 1;
    }
    proof {
        assert(samples@ =~= decoded_samples(bytes@));
    }
    Some(samples)
}

/// The encoder and the decoder are inverse: every container the encoder
/// produces carries the canonical header of the fixed configuration in its
/// first 44 bytes, has exactly two payload bytes per sample, and decodes
/// back to the samples it was built from.
pub proof fn lemma_wav_round_trip(samples: Seq<i16>)
    requires
        samples.len() <= MAX_WAV_SAMPLES,
    ensures
        wav_bytes(samples).len() == HEADER_LEN + 2 * samples.len(),
        wav_bytes(samples).subrange(0, HEADER_LEN as int) == header_bytes(samples.len() as int),
        wav_decode_ok(wav_bytes(samples)),
        decoded_samples(wav_bytes(samples)) == samples,
{
    let b = wav_bytes(samples);
    let n = samples.len() as int;
    assert(header_bytes(n).len() == 44);
    assert(b.subrange(0, HEADER_LEN as int) =~= header_bytes(n));
    assert(wav_payload_count(b) == n);
    assert forall|i: int| 0 <= i < n implies decoded_samples(b)[i] == samples[i] by {
        let w = sample_word(samples[i]);
        assert(b[HEADER_LEN + 2 * i] == pcm_bytes(samples)[2 * i]);
        assert(b[HEADER_LEN + 2 * i + 1] == pcm_bytes(samples)[2 * i + 1]);
        assert((2 * i) / 2 == i && (2 * i) % 2 == 0);
        assert((2 * i + 1) / 2 == i && (2 * i + 1) % 2 == 1);
        assert(w % 256 + 256 * (w / 256) == w);
        assert(word_sample(sample_word(samples[i])) == samples[i]);
    }
    assert(decoded_samples(b) =~= samples);
}

} // verus!
