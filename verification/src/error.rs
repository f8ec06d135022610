use vstd::prelude::*;

verus! {

/// The error taxonomy of the pipeline.  Every failure is returned to the
/// immediate caller as one of these categories; nothing is retried inside
/// the library.
#[derive(Debug)]
pub enum VideoError {
    /// A color string is not six hex digits (with an optional `#` prefix).
    /// Carries the offending string.
    InvalidColorFormat(String),
    /// The bundled font asset is missing or corrupt; fatal to synthesis.
    FontLoadFailure,
    /// The requested template variant is not implemented.  Carries the
    /// variant's name.
    TemplateNotImplemented(String),
    /// An explicitly requested audio track could not be opened.  Carries the
    /// requested path.
    AudioSourceUnavailable(String),
    /// A codec or muxer call failed during configure, header, encode, flush
    /// or trailer; fatal to the synthesis in progress.
    EncoderSessionFailure,
    /// A container offered no video stream at all; fatal to validation.
    NoVideoStream,
    /// A container could not be opened for validation.
    ValidationOpenFailure,
}

impl VideoError {
    /// A short fixed name for the error's category.
    pub fn category(&self) -> (name: &'static str)
        ensures
            name@ == category_name(*self),
    {
        match self {
            VideoError::InvalidColorFormat(_) => "invalid color format",
            VideoError::FontLoadFailure => "font load failure",
            VideoError::TemplateNotImplemented(_) => "template not implemented",
            VideoError::AudioSourceUnavailable(_) => "audio source unavailable",
            VideoError::EncoderSessionFailure => "encoder session failure",
            VideoError::NoVideoStream => "no video stream",
            VideoError::ValidationOpenFailure => "validation open failure",
        }
    }
}

/// The name `category` returns for each variant.
pub open spec fn category_name(e: VideoError) -> Seq<char> {
    match e {
        VideoError::InvalidColorFormat(_) => "invalid color format"@,
        VideoError::FontLoadFailure => "font load failure"@,
        VideoError::TemplateNotImplemented(_) => "template not implemented"@,
        VideoError::AudioSourceUnavailable(_) => "audio source unavailable"@,
        VideoError::EncoderSessionFailure => "encoder session failure"@,
        VideoError::NoVideoStream => "no video stream"@,
        VideoError::ValidationOpenFailure => "validation open failure"@,
    }
}

} // verus!
