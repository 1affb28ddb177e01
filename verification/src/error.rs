//! The failures that keep a recording from starting.

use vstd::prelude::*;

verus! {

/// Why a recording session could not be set up.
#[derive(Clone, Debug)]
pub enum SlickscreenError {
    /// A session is already running.
    AlreadyRunning,
    /// The codec library could not be initialised.
    FFmpegInitError,
    /// No audio encoder could be found or opened.
    AudioEncoderNotFound,
    /// The audio device could not be set up for capture, with the cause.
    AudioCaptureError(String),
    /// No video encoder could be found or opened, with the cause.
    VideoEncoderNotFound(String),
    /// The screen could not be set up for capture, with the cause.
    ScreenCaptureError(String),
    /// Anything else.
    Unexpected,
}

impl SlickscreenError {
    /// The text that `message` gives for each failure. Only a missing video
    /// encoder shows its cause.
    pub open spec fn message_text(&self) -> Seq<char> {
        match self {
            SlickscreenError::AlreadyRunning => "Slickscreen is already running"@,
            SlickscreenError::FFmpegInitError => "Unable to initialize FFmpeg library"@,
            SlickscreenError::AudioEncoderNotFound => "Audio encoder not found"@,
            SlickscreenError::AudioCaptureError(_) => "Unable to configure audio capture"@,
            SlickscreenError::VideoEncoderNotFound(cause) => "Video encoder not found: "@
                + cause@,
            SlickscreenError::ScreenCaptureError(_) => "Unable to configure screen capture"@,
            SlickscreenError::Unexpected => "unexpected error"@,
        }
    }

    /// The failure as a line of text for the user.
    pub fn message(&self) -> (text: String)
        ensures
            text@ == self.message_text(),
    {
        match self {
            SlickscreenError::AlreadyRunning => String::from_str("Slickscreen is already running"),
            SlickscreenError::FFmpegInitError => String::from_str(
                "Unable to initialize FFmpeg library",
            ),
            SlickscreenError::AudioEncoderNotFound => String::from_str("Audio encoder not found"),
            SlickscreenError::AudioCaptureError(_) => String::from_str(
                "Unable to configure audio capture",
            ),
            SlickscreenError::VideoEncoderNotFound(cause) => String::from_str(
                "Video encoder not found: ",
            ).concat(cause.as_str()),
            SlickscreenError::ScreenCaptureError(_) => String::from_str(
                "Unable to configure screen capture",
            ),
            SlickscreenError::Unexpected => String::from_str("unexpected error"),
        }
    }
}

} // verus!
