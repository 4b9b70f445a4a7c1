use vstd::prelude::*;

verus! {

/// Why a frame could not be processed. Each of these ends the session's
/// pipeline: a lost frame is never retried.
#[derive(Debug, Clone, PartialEq, Eq)]
pub enum PipelineError {
    /// The region does not lie inside the frame that arrived.
    CropOutOfBounds,
    /// The region has no width or no height, so there is nothing to crop.
    EmptyRegion,
    /// The cropped buffer holds fewer bytes than the region's pixels need.
    ShortBuffer,
    /// A cropped buffer was handed over although no region is configured.
    NoRegion,
    /// A frame arrived after the encoder had been finalized.
    EncoderFinished,
    /// The encoder could not be created; the text is the encoder's own.
    EncoderInitFailed(String),
    /// The encoder refused a frame; the text is the encoder's own.
    EncoderFailed(String),
}

/// Why a recording could not be started or stopped.
#[derive(Debug, Clone, PartialEq, Eq)]
pub enum RecordingError {
    /// A session exists already; it goes on undisturbed.
    AlreadyRecording,
    /// There is no session to stop.
    NotRecording,
    /// The chosen source could not be opened for capture; the text is the
    /// capture backend's own.
    SourceResolutionFailed(String),
    /// The background unit of the session did not end in order.
    JoinFailed,
}

impl RecordingError {
    /// The text shown to the user for this error.
    pub open spec fn text(&self) -> Seq<char> {
        match self {
            RecordingError::AlreadyRecording => "Recording already in progress"@,
            RecordingError::NotRecording => "No recording in progress"@,
            RecordingError::SourceResolutionFailed(e) => "Failed to create capture item: "@ + e@,
            RecordingError::JoinFailed => "Failed to join recording thread"@,
        }
    }

    /// The text shown to the user for this error.
    pub fn message(&self) -> (s: String)
        ensures
            s@ == self.text(),
    {
        match self {
            RecordingError::AlreadyRecording => String::from_str("Recording already in progress"),
            RecordingError::NotRecording => String::from_str("No recording in progress"),
            RecordingError::SourceResolutionFailed(e) => String::from_str(
                "Failed to create capture item: ",
            ).concat(e.as_str()),
            RecordingError::JoinFailed => String::from_str("Failed to join recording thread"),
        }
    }
}

/// Why the capture sources could not be listed. The text is the operating
/// system's own account of the failure.
#[derive(Debug, Clone, PartialEq, Eq)]
pub enum CaptureSourceError {
    ListMonitors(String),
    ListWindows(String),
}

impl CaptureSourceError {
    /// The text shown to the user for this error.
    pub open spec fn text(&self) -> Seq<char> {
        match self {
            CaptureSourceError::ListMonitors(e) => "failed to list monitors: "@ + e@,
            CaptureSourceError::ListWindows(e) => "failed to list windows: "@ + e@,
        }
    }

    /// The text shown to the user for this error.
    pub fn message(&self) -> (s: String)
        ensures
            s@ == self.text(),
    {
        match self {
            CaptureSourceError::ListMonitors(e) => String::from_str(
                "failed to list monitors: ",
            ).concat(e.as_str()),
            CaptureSourceError::ListWindows(e) => String::from_str(
                "failed to list windows: ",
            ).concat(e.as_str()),
        }
    }
}

/// Why the cameras could not be listed.
#[derive(Debug, Clone, PartialEq, Eq)]
pub enum WebcamError {
    ListWebcams(String),
}

impl WebcamError {
    /// The text shown to the user for this error.
    pub fn message(&self) -> (s: String)
        ensures
            s@ == "failed to list webcams"@,
    {
        String::from_str("failed to list webcams")
    }
}

} // verus!
