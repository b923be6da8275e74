//! Mixing of the microphone stream with buffered system audio.

use vstd::prelude::*;

verus! {

/// Largest magnitude of an emitted sample.
pub const PCM_PEAK: i16 = 32767;

/// A scaled amplitude limited to `-PCM_PEAK..=PCM_PEAK`.
pub open spec fn clip_to_pcm(scaled: i64) -> i16 {
    if scaled > PCM_PEAK {
        PCM_PEAK
    } else if scaled < -PCM_PEAK {
        (-PCM_PEAK) as i16
    } else {
        scaled as i16
    }
}

/// Whether every sample lies within the peak.
pub open spec fn within_peak(samples: Seq<i16>) -> bool {
    forall|i: int| 0 <= i < samples.len() ==> -PCM_PEAK <= #[trigger] samples[i] <= PCM_PEAK
}

/// The system sample that meets microphone sample `i`, if one is buffered.
pub open spec fn partner<T>(system: Seq<T>, i: int) -> Option<T> {
    if 0 <= i < system.len() {
        Some(system[i])
    } else {
        None
    }
}

/// Number of buffered system samples that a microphone chunk of `mic_len`
/// samples uses up.
pub open spec fn consumed(mic_len: nat, system_len: nat) -> nat {
    if mic_len <= system_len {
        mic_len
    } else {
        system_len
    }
}

/// `out` is what `blend` gave for the pair `(m, s)`, clipped.
pub open spec fn blended<T, F: Fn(T, Option<T>) -> i64>(blend: &F, m: T, s: Option<T>, out: i16) -> bool {
    exists|x: i64| #[trigger] blend.ensures((m, s), x) && out == clip_to_pcm(x)
}

/// Hard-clips a scaled amplitude: whatever comes in, what goes out lies
/// within the peak.
pub fn clip_sample(scaled: i64) -> (sample: i16)
    ensures
        sample == clip_to_pcm(scaled),
        -PCM_PEAK <= sample <= PCM_PEAK,
{
    if scaled > 32767 {
        32767
    } else if scaled < -32767 {
        -32767
    } else {
        scaled as i16
    }
}

/// Mixes one microphone chunk with the buffered system samples. Sample `i`
/// of the chunk meets buffered sample `i`, or nothing where the buffer is
/// shorter; `blend` gives the scaled sum of the two, which is clipped to the
/// peak. The system samples that were met leave the buffer.
pub fn mix_chunk<T: Copy, F: Fn(T, Option<T>) -> i64>(
    mic: &Vec<T>,
    system: &mut Vec<T>,
    blend: &F,
) -> (pcm: Vec<i16>)
    requires
        forall|m: T, s: Option<T>| blend.requires((m, s)),
    ensures
        pcm@.len() == mic@.len(),
        forall|i: int|
            #![trigger pcm@[i]]
            0 <= i < mic@.len() ==> blended(blend, mic@[i], partner(old(system)@, i), pcm@[i]),
        within_peak(pcm@),
        final(system)@ == old(system)@.skip(consumed(mic@.len(), old(system)@.len()) as int),
{
    let mut pcm: Vec<i16> = Vec::new();
    let mut i: usize = 0;
    while i < mic.len()
        invariant
            i <= mic@.len(),
            pcm@.len() == i,
            system@ == old(system)@,
            within_peak(pcm@),
            forall|m: T, s: Option<T>| blend.requires((m, s)),
            forall|k: int|
                #![trigger pcm@[k]]
                0 <= k < i ==> blended(blend, mic@[k], partner(system@, k), pcm@[k]),
        decreases mic@.len() - i,
    {
        let other: Option<T> = if i < system.len() { Some(system[i]) } else { None };
        let scaled: i64 = blend(mic[i], other);
        let sample = clip_sample(scaled);
        pcm.push(sample);
        i = i + 1;
    }
    let used: usize = if mic.len() <= system.len() { mic.len() } else { system.len() };
    let rest = system.split_off(used);
    *system = rest;
    pcm
}

} // verus!
