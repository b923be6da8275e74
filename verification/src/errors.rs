//! Failures that end a capture run, and the words in which they are shown.

use vstd::prelude::*;
use vstd::string::*;

verus! {

/// The step of a capture run that failed.
#[derive(Debug, PartialEq, Eq, Clone, Copy, Structural)]
pub enum CaptureStage {
    /// The directory for the segment files could not be made.
    TempDirectory,
    /// The microphone stream could not be built.
    MicrophoneStream,
    /// The microphone stream could not be started.
    MicrophonePlay,
    /// There is no device to take the system audio from.
    NoOutputDevice,
    /// The output device reported no format.
    SystemFormat,
    /// The system-audio stream could not be built.
    SystemStream,
    /// The system-audio stream could not be started.
    SystemPlay,
    /// A segment file could not be created.
    SegmentCreate,
    /// A segment file could not be completed.
    SegmentFinalize,
}

/// A failure of a capture run: the step, and what the device layer or the
/// file system said about it.
#[derive(Debug)]
pub struct CaptureError {
    pub stage: CaptureStage,
    pub detail: String,
}

/// The words that name a failed step.
pub open spec fn stage_text(stage: CaptureStage) -> Seq<char> {
    match stage {
        CaptureStage::TempDirectory => "Failed to create temp directory"@,
        CaptureStage::MicrophoneStream => "Failed to build mic stream"@,
        CaptureStage::MicrophonePlay => "Failed to play mic stream"@,
        CaptureStage::NoOutputDevice => "No output device available"@,
        CaptureStage::SystemFormat => "Failed to get sys config"@,
        CaptureStage::SystemStream => "Failed to build sys stream"@,
        CaptureStage::SystemPlay => "Failed to play sys stream"@,
        CaptureStage::SegmentCreate => "Failed to create wav writer"@,
        CaptureStage::SegmentFinalize => "Failed to finalize wav writer"@,
    }
}

/// The reason shown for a failure: the step's words, followed by a colon
/// and the detail for every step but a missing output device.
pub open spec fn message_of(stage: CaptureStage, detail: Seq<char>) -> Seq<char> {
    if stage == CaptureStage::NoOutputDevice {
        stage_text(stage)
    } else {
        stage_text(stage) + ": "@ + detail
    }
}

impl CaptureStage {
    pub fn text(&self) -> (text: &'static str)
        ensures
            text@ == stage_text(*self),
    {
        match self {
            CaptureStage::TempDirectory => "Failed to create temp directory",
            CaptureStage::MicrophoneStream => "Failed to build mic stream",
            CaptureStage::MicrophonePlay => "Failed to play mic stream",
            CaptureStage::NoOutputDevice => "No output device available",
            CaptureStage::SystemFormat => "Failed to get sys config",
            CaptureStage::SystemStream => "Failed to build sys stream",
            CaptureStage::SystemPlay => "Failed to play sys stream",
            CaptureStage::SegmentCreate => "Failed to create wav writer",
            CaptureStage::SegmentFinalize => "Failed to finalize wav writer",
        }
    }
}

impl CaptureError {
    /// The reason to show as the session's error.
    pub fn message(&self) -> (message: String)
        ensures
            message@ == message_of(self.stage, self.detail@),
    {
        let mut message = String::from_str(self.stage.text());
        match self.stage {
            CaptureStage::NoOutputDevice => {},
            _ => {
                message.append(": ");
                message.append(self.detail.as_str());
            },
        }
        message
    }
}

} // verus!
