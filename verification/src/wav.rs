//! Segments as WAVE files: mono, 16 bits, at the microphone's rate.

use vstd::prelude::*;
use vstd::string::*;
use crate::engine::FinishedSegment;
use crate::text::{push_signed_decimal, signed_decimal};

verus! {

/// Highest sample rate that a file's header can state.
pub const MAX_SAMPLE_RATE: u32 = 0x7fff_ffff;

/// Largest number of samples that fit in one file.
pub const MAX_SAMPLES: usize = 0x7fff_ffed;

/// Number of channels in a segment file.
pub const WAV_CHANNELS: u16 = 1;

/// Number of bits in which a sample is stored.
pub const WAV_BITS_PER_SAMPLE: u16 = 16;

#[verifier::external_type_specification]
#[verifier::external_body]
pub struct ExHoundError(hound::Error);

/// The bytes of the WAVE file that holds `samples`, interleaved over
/// `channels` channels, as integers of `bits_per_sample` bits at
/// `sample_rate`.
pub uninterp spec fn wav_bytes(channels: u16, sample_rate: u32, bits_per_sample: u16, samples: Seq<i16>) -> Seq<u8>;

/// Why a segment could not be encoded.
#[derive(Debug, PartialEq, Eq, Clone, Copy, Structural)]
pub enum WavError {
    /// The sample rate is zero or above `MAX_SAMPLE_RATE`.
    UnsupportedRate,
    /// There are more than `MAX_SAMPLES` samples.
    TooLong,
    /// The encoder reported a failure. It reports none for a rate and a
    /// length that `encodable` admits.
    Encoder,
}

/// Whether a file can be written for this rate and this many samples.
pub open spec fn encodable(sample_rate: u32, len: nat) -> bool {
    0 < sample_rate <= MAX_SAMPLE_RATE && len <= MAX_SAMPLES
}

/// Runs hound's writer over an in-memory sink: `WavWriter::new` with an
/// integer format of `channels` channels and `bits_per_sample` bits at
/// `sample_rate`, `write_sample` for each sample in order, then `finalize`.
/// The sink then holds the file named by `wav_bytes`. The calls succeed on
/// every input admitted here: the writer refuses only a bit depth other
/// than 8, 16, 24 or 32, a sample count that is no multiple of the channel
/// count, and what its sink refuses, and a sink in memory refuses nothing.
/// The rate and the length are bounded because the writer computes the
/// header's byte rate and sizes in 32 bits and divides by the rate.
#[verifier::external_body]
fn hound_encode(
    channels: u16,
    sample_rate: u32,
    bits_per_sample: u16,
    samples: &Vec<i16>,
) -> (encoded: Result<Vec<u8>, hound::Error>)
    requires
        channels == 1,
        bits_per_sample == 16,
        encodable(sample_rate, samples@.len()),
    ensures
        encoded is Ok,
        encoded matches Ok(bytes) ==> bytes@ == wav_bytes(channels, sample_rate, bits_per_sample, samples@),
{
    let spec = hound::WavSpec { channels, sample_rate, bits_per_sample, sample_format: hound::SampleFormat::Int };
    let mut sink = std::io::Cursor::new(Vec::new());
    let mut writer = hound::WavWriter::new(&mut sink, spec)?;
    samples.iter().try_for_each(|sample| writer.write_sample(*sample))?;
    writer.finalize()?;
    Ok(sink.into_inner())
}

/// What the encoder's answer means to the caller.
pub fn encoder_outcome(encoded: Result<Vec<u8>, hound::Error>) -> (outcome: Result<Vec<u8>, WavError>)
    ensures
        match encoded {
            Ok(bytes) => outcome == Ok::<Vec<u8>, WavError>(bytes),
            Err(_) => outcome == Err::<Vec<u8>, WavError>(WavError::Encoder),
        },
{
    match encoded {
        Ok(bytes) => Ok(bytes),
        Err(_) => Err(WavError::Encoder),
    }
}

/// The file of a segment: `WAV_CHANNELS` channel of `WAV_BITS_PER_SAMPLE`
/// bits.
pub open spec fn segment_bytes(sample_rate: u32, samples: Seq<i16>) -> Seq<u8> {
    wav_bytes(WAV_CHANNELS, sample_rate, WAV_BITS_PER_SAMPLE, samples)
}

/// Encodes `samples` as a WAVE file at `sample_rate`. Every rate from 1 to
/// `MAX_SAMPLE_RATE` with up to `MAX_SAMPLES` samples gives a file.
pub fn encode_wav(sample_rate: u32, samples: &Vec<i16>) -> (outcome: Result<Vec<u8>, WavError>)
    ensures
        !(0 < sample_rate <= MAX_SAMPLE_RATE) ==> outcome == Err::<Vec<u8>, WavError>(WavError::UnsupportedRate),
        0 < sample_rate <= MAX_SAMPLE_RATE && samples@.len() > MAX_SAMPLES ==> outcome == Err::<Vec<u8>, WavError>(
            WavError::TooLong,
        ),
        encodable(sample_rate, samples@.len()) ==> outcome is Ok,
        outcome matches Ok(bytes) ==> bytes@ == segment_bytes(sample_rate, samples@),
{
    if sample_rate == 0 || sample_rate > MAX_SAMPLE_RATE {
        return Err(WavError::UnsupportedRate);
    }
    if samples.len() > MAX_SAMPLES {
        return Err(WavError::TooLong);
    }
    encoder_outcome(hound_encode(WAV_CHANNELS, sample_rate, WAV_BITS_PER_SAMPLE, samples))
}

/// Name of the local file of a segment: `temp_`, the recording, `_`, the
/// sequence number, `.wav`.
pub open spec fn file_name_of(recording_id: i64, sequence: i32) -> Seq<char> {
    "temp_"@ + signed_decimal(recording_id as int) + "_"@ + signed_decimal(sequence as int) + ".wav"@
}

pub fn segment_file_name(recording_id: i64, sequence: i32) -> (name: String)
    ensures
        name@ == file_name_of(recording_id, sequence),
{
    let mut name = String::from_str("temp_");
    push_signed_decimal(&mut name, recording_id);
    name.append("_");
    push_signed_decimal(&mut name, sequence as i64);
    name.append(".wav");
    name
}

impl FinishedSegment {
    /// The segment as a WAVE file. A segment at a rate from 1 to
    /// `MAX_SAMPLE_RATE` with up to `MAX_SAMPLES` samples always gives one.
    pub fn to_wav(&self) -> (outcome: Result<Vec<u8>, WavError>)
        ensures
            !(0 < self.sample_rate <= MAX_SAMPLE_RATE) ==> outcome == Err::<Vec<u8>, WavError>(
                WavError::UnsupportedRate,
            ),
            0 < self.sample_rate <= MAX_SAMPLE_RATE && self.samples@.len() > MAX_SAMPLES ==> outcome == Err::<
                Vec<u8>,
                WavError,
            >(WavError::TooLong),
            encodable(self.sample_rate, self.samples@.len()) ==> outcome is Ok,
            outcome matches Ok(bytes) ==> bytes@ == segment_bytes(self.sample_rate, self.samples@),
    {
        encode_wav(self.sample_rate, &self.samples)
    }

    /// Name of the segment's local file.
    pub fn file_name(&self) -> (name: String)
        ensures
            name@ == file_name_of(self.recording_id, self.sequence),
    {
        segment_file_name(self.recording_id, self.sequence)
    }
}

} // verus!
