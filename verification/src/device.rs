//! Choice of the capture devices and of the microphone's stand-in.

use vstd::prelude::*;
use crate::errors::CaptureStage;

verus! {

/// Sample rate assumed when no microphone can be opened.
pub const FALLBACK_SAMPLE_RATE: u32 = 48000;

/// Length in milliseconds of one chunk of synthetic silence.
pub const SILENCE_CHUNK_MS: u64 = 100;

/// How the device of one role is to be obtained.
#[derive(Debug, PartialEq, Eq, Clone, Copy, Structural)]
pub enum DeviceChoice {
    /// The enumerated device at this position bears the configured name.
    Named(usize),
    /// The host's default device of the role.
    Default,
    /// The role has no device at all.
    Unavailable,
}

/// Channel count and sample rate that a device delivers.
#[derive(Debug, PartialEq, Eq, Clone, Copy, Structural)]
pub struct StreamFormat {
    pub channels: u16,
    pub sample_rate: u32,
}

/// Where the microphone chunks of a session come from.
#[derive(Debug, PartialEq, Eq, Clone, Copy, Structural)]
pub enum MicrophoneSource {
    /// A stream of the chosen device in its own format.
    Device { choice: DeviceChoice, format: StreamFormat },
    /// A generator of zero-filled chunks, `chunk_len` samples every
    /// `SILENCE_CHUNK_MS` milliseconds.
    VirtualSilence { sample_rate: u32, chunk_len: usize },
}

/// Whether an enumerated device, whose name may be unreadable, bears the
/// name `wanted`.
pub open spec fn bears_name(entry: Option<String>, wanted: Seq<char>) -> bool {
    entry matches Some(name) && name@ == wanted
}

/// Whether no enumerated device bears the configured name.
pub open spec fn no_match(configured: Option<String>, names: Seq<Option<String>>) -> bool {
    configured matches Some(wanted) ==> forall|j: int|
        0 <= j < names.len() ==> !bears_name(#[trigger] names[j], wanted@)
}

/// The choice that the resolver makes: the first enumerated device with
/// exactly the configured name; else the default device; else none.
pub open spec fn is_resolution(
    configured: Option<String>,
    names: Seq<Option<String>>,
    has_default: bool,
    choice: DeviceChoice,
) -> bool {
    match choice {
        DeviceChoice::Named(i) => {
            &&& configured is Some
            &&& i < names.len()
            &&& bears_name(names[i as int], configured->0@)
            &&& forall|j: int| 0 <= j < i ==> !bears_name(#[trigger] names[j], configured->0@)
        },
        DeviceChoice::Default => has_default && no_match(configured, names),
        DeviceChoice::Unavailable => !has_default && no_match(configured, names),
    }
}

/// Picks the device of one role. `names` lists the enumerated devices of
/// the role in order, `None` standing for a device whose name cannot be
/// read; `has_default` says whether the host offers a default device.
pub fn resolve_device(configured: &Option<String>, names: &Vec<Option<String>>, has_default: bool) -> (choice:
    DeviceChoice)
    ensures
        is_resolution(*configured, names@, has_default, choice),
{
    if let Some(wanted) = configured {
        let mut i: usize = 0;
        while i < names.len()
            invariant
                i <= names@.len(),
                *configured == Some(*wanted),
                forall|j: int| 0 <= j < i ==> !bears_name(#[trigger] names@[j], wanted@),
            decreases names@.len() - i,
        {
            if let Some(name) = &names[i] {
                if *name == *wanted {
                    return DeviceChoice::Named(i);
                }
            }
            i = i + 1;
        }
    }
    if has_default {
        DeviceChoice::Default
    } else {
        DeviceChoice::Unavailable
    }
}

/// Samples in one chunk of synthetic silence at `sample_rate`.
pub open spec fn silence_len(sample_rate: u32) -> nat {
    (sample_rate as nat * SILENCE_CHUNK_MS as nat) / 1000
}

pub fn silence_chunk_len(sample_rate: u32) -> (len: usize)
    ensures
        len == silence_len(sample_rate),
{
    let len: u64 = (sample_rate as u64 * SILENCE_CHUNK_MS) / 1000;
    len as usize
}

/// The stand-in for a microphone that cannot be used.
pub open spec fn fallback_microphone() -> MicrophoneSource {
    MicrophoneSource::VirtualSilence {
        sample_rate: FALLBACK_SAMPLE_RATE,
        chunk_len: silence_len(FALLBACK_SAMPLE_RATE) as usize,
    }
}

/// The microphone source that follows from the resolver's choice and from
/// the format the chosen device reported, if it reported one.
pub open spec fn microphone_plan(choice: DeviceChoice, format: Option<StreamFormat>) -> MicrophoneSource {
    if choice != DeviceChoice::Unavailable && format is Some {
        MicrophoneSource::Device { choice, format: format->0 }
    } else {
        fallback_microphone()
    }
}

/// Decides where the microphone chunks come from. A missing device, or one
/// that reports no format, never fails the session: silence stands in.
pub fn plan_microphone(choice: DeviceChoice, format: Option<StreamFormat>) -> (source: MicrophoneSource)
    ensures
        source == microphone_plan(choice, format),
{
    match (choice, format) {
        (DeviceChoice::Unavailable, _) | (_, None) => MicrophoneSource::VirtualSilence {
            sample_rate: FALLBACK_SAMPLE_RATE,
            chunk_len: silence_chunk_len(FALLBACK_SAMPLE_RATE),
        },
        (_, Some(format)) => MicrophoneSource::Device { choice, format },
    }
}

/// Decides where the system audio comes from. There is no stand-in for
/// it: without an output device the capture run fails.
pub fn plan_system(choice: DeviceChoice) -> (plan: Result<DeviceChoice, CaptureStage>)
    ensures
        plan == (if choice == DeviceChoice::Unavailable {
            Err::<DeviceChoice, CaptureStage>(CaptureStage::NoOutputDevice)
        } else {
            Ok::<DeviceChoice, CaptureStage>(choice)
        }),
{
    match choice {
        DeviceChoice::Unavailable => Err(CaptureStage::NoOutputDevice),
        _ => Ok(choice),
    }
}

impl MicrophoneSource {
    /// The rate at which the session's segments are written.
    pub fn sample_rate(&self) -> (rate: u32)
        ensures
            rate == match *self {
                MicrophoneSource::Device { format, .. } => format.sample_rate,
                MicrophoneSource::VirtualSilence { sample_rate, .. } => sample_rate,
            },
    {
        match self {
            MicrophoneSource::Device { format, .. } => format.sample_rate,
            MicrophoneSource::VirtualSilence { sample_rate, .. } => *sample_rate,
        }
    }

    pub fn is_virtual(&self) -> (yes: bool)
        ensures
            yes == (*self is VirtualSilence),
    {
        match self {
            MicrophoneSource::Device { .. } => false,
            MicrophoneSource::VirtualSilence { .. } => true,
        }
    }
}

} // verus!
