//! The recording as a WAV file in memory: 16 kHz, mono, 16-bit PCM, written
//! by `hound`.

use vstd::prelude::*;

verus! {

/// The error type of `hound`, carried through as it is.
#[verifier::external_type_specification]
#[verifier::external_body]
pub struct ExHoundError(hound::Error);

/// The sample rate of the encoded recording.
pub const WAV_SAMPLE_RATE: u32 = 16000;

/// The channel count of the encoded recording.
pub const WAV_CHANNELS: u16 = 1;

/// The bits per sample of the encoded recording.
pub const WAV_BITS_PER_SAMPLE: u16 = 16;

/// The length of the header that precedes the samples.
pub const WAV_HEADER_LEN: usize = 44;

/// A 16-bit value as two bytes, least significant first.
pub open spec fn le16(x: u16) -> Seq<u8> {
    seq![(x % 256) as u8, (x / 256) as u8]
}

/// A 32-bit value as four bytes, least significant first.
pub open spec fn le32(x: u32) -> Seq<u8> {
    seq![
        (x % 256) as u8,
        ((x / 256) % 256) as u8,
        ((x / 65536) % 256) as u8,
        (x / 16777216) as u8,
    ]
}

/// The samples, each as two bytes in little-endian two's complement.
pub open spec fn sample_bytes(samples: Seq<i16>) -> Seq<u8>
    decreases samples.len(),
{
    if samples.len() == 0 {
        Seq::empty()
    } else {
        sample_bytes(samples.drop_last()) + le16(samples.last() as u16)
    }
}

/// The four ASCII bytes of a chunk id.
pub open spec fn tag(a: char, b: char, c: char, d: char) -> Seq<u8> {
    seq![a as u8, b as u8, c as u8, d as u8]
}

/// The 44-byte header of a mono 16-bit PCM WAV file with `n` samples at
/// `sample_rate`: the RIFF chunk, the 16-byte `fmt ` chunk and the head of the
/// `data` chunk.
pub open spec fn pcm16_mono_header(sample_rate: u32, n: nat) -> Seq<u8> {
    tag('R', 'I', 'F', 'F') + le32((36 + 2 * n) as u32) + tag('W', 'A', 'V', 'E') + tag(
        'f',
        'm',
        't',
        ' ',
    ) + le32(16) + le16(1) + le16(1) + le32(sample_rate) + le32((2 * sample_rate) as u32) + le16(
        2,
    ) + le16(16) + tag('d', 'a', 't', 'a') + le32((2 * n) as u32)
}

/// The whole file: the header followed by the samples.
pub open spec fn pcm16_mono_wav(sample_rate: u32, samples: Seq<i16>) -> Seq<u8> {
    pcm16_mono_header(sample_rate, samples.len()) + sample_bytes(samples)
}

/// Writes `samples` with `hound::WavWriter` into a `Vec<u8>` (through
/// `std::io::Cursor`), with a `hound::WavSpec` of the given channels, rate and
/// bits and integer samples, calling `write_sample` for each sample and then
/// `finalize`.
/// The contract claims what `hound` 3.5's source shows for one channel of
/// 16 bits: the writer uses the plain PCM header (`fmt ` chunk of 16 bytes,
/// format 1), writes each `i16` as two little-endian bytes, and `finalize`
/// fills in the RIFF size (36 plus the data length) and the data length; a
/// cursor over a vector never fails to write or seek, so no error arises. The
/// `requires` keeps the byte counts that `hound` holds in `u32` from
/// overflowing and the rate from being zero, which `hound` divides by.
#[verifier::external_body]
fn write_wav_samples(samples: &[i16], channels: u16, sample_rate: u32, bits_per_sample: u16) -> (r:
    Result<Vec<u8>, hound::Error>)
    requires
        channels == 1,
        bits_per_sample == 16,
        0 < sample_rate,
        2 * sample_rate <= u32::MAX,
        36 + 2 * samples@.len() <= u32::MAX,
    ensures
        r is Ok,
        r matches Ok(bytes) ==> bytes@ == pcm16_mono_wav(sample_rate, samples@),
{
    let spec = hound::WavSpec { channels, sample_rate, bits_per_sample, sample_format: hound::SampleFormat::Int };
    let mut buf: Vec<u8> = Vec::new();
    {
        let mut writer = hound::WavWriter::new(std::io::Cursor::new(&mut buf), spec)?;
        for &s in samples {
            writer.write_sample(s)?;
        }
        writer.finalize()?;
    }
    Ok(buf)
}

/// Encodes 16 kHz mono samples as a complete WAV file in memory.
pub fn encode_pcm16_wav(samples: &[i16]) -> (r: Vec<u8>)
    requires
        36 + 2 * samples@.len() <= u32::MAX,
    ensures
        r@ == pcm16_mono_wav(WAV_SAMPLE_RATE, samples@),
{
    match write_wav_samples(samples, WAV_CHANNELS, WAV_SAMPLE_RATE, WAV_BITS_PER_SAMPLE) {
        Ok(bytes) => bytes,
        Err(_) => {
            assert(false);
            Vec::new()
        },
    }
}

proof fn lemma_sample_bytes(samples: Seq<i16>)
    ensures
        sample_bytes(samples).len() == 2 * samples.len(),
        forall|i: int|
            #![trigger samples[i]]
            0 <= i < samples.len() ==> sample_bytes(samples).subrange(2 * i, 2 * i + 2) == le16(
                samples[i] as u16,
            ),
    decreases samples.len(),
{
    if samples.len() > 0 {
        let init = samples.drop_last();
        lemma_sample_bytes(init);
        assert forall|i: int| #![trigger samples[i]] 0 <= i < samples.len() implies sample_bytes(
            samples,
        ).subrange(2 * i, 2 * i + 2) == le16(samples[i] as u16) by {
            if i < samples.len() - 1 {
                assert(init[i] == samples[i]);
                assert(sample_bytes(samples).subrange(2 * i, 2 * i + 2) =~= sample_bytes(
                    init,
                ).subrange(2 * i, 2 * i + 2));
            } else {
                assert(sample_bytes(samples).subrange(2 * i, 2 * i + 2) =~= le16(
                    samples.last() as u16,
                ));
            }
        }
    }
}

/// The layout of an encoded recording: a RIFF file of 44 header bytes and two
/// bytes per sample, whose RIFF size field counts everything after the first
/// eight bytes, marked `WAVE`, with a `data` chunk of the samples in order.
pub proof fn lemma_wav_layout(sample_rate: u32, samples: Seq<i16>)
    requires
        36 + 2 * samples.len() <= u32::MAX,
    ensures
        pcm16_mono_wav(sample_rate, samples).len() == 44 + 2 * samples.len(),
        pcm16_mono_wav(sample_rate, samples).subrange(0, 4) == tag('R', 'I', 'F', 'F'),
        pcm16_mono_wav(sample_rate, samples).subrange(4, 8) == le32(
            (pcm16_mono_wav(sample_rate, samples).len() - 8) as u32,
        ),
        pcm16_mono_wav(sample_rate, samples).subrange(8, 12) == tag('W', 'A', 'V', 'E'),
        pcm16_mono_wav(sample_rate, samples).subrange(36, 40) == tag('d', 'a', 't', 'a'),
        pcm16_mono_wav(sample_rate, samples).subrange(40, 44) == le32((2 * samples.len()) as u32),
        forall|i: int|
            #![trigger samples[i]]
            0 <= i < samples.len() ==> pcm16_mono_wav(sample_rate, samples).subrange(
                44 + 2 * i,
                46 + 2 * i,
            ) == le16(samples[i] as u16),
{
    lemma_sample_bytes(samples);
    let w = pcm16_mono_wav(sample_rate, samples);
    let h = pcm16_mono_header(sample_rate, samples.len());
    assert(h.len() == 44);
    assert(w.subrange(0, 4) =~= tag('R', 'I', 'F', 'F'));
    assert(w.subrange(4, 8) =~= le32((36 + 2 * samples.len()) as u32));
    assert(w.subrange(8, 12) =~= tag('W', 'A', 'V', 'E'));
    assert(w.subrange(36, 40) =~= tag('d', 'a', 't', 'a'));
    assert(w.subrange(40, 44) =~= le32((2 * samples.len()) as u32));
    assert forall|i: int| #![trigger samples[i]] 0 <= i < samples.len() implies w.subrange(
        44 + 2 * i,
        46 + 2 * i,
    ) == le16(samples[i] as u16) by {
        assert(w.subrange(44 + 2 * i, 46 + 2 * i) =~= sample_bytes(samples).subrange(
            2 * i,
            2 * i + 2,
        ));
    }
}

} // verus!
