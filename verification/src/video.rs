//! The declarative description of a video to synthesize.

use vstd::prelude::*;

verus! {

/// The template variants a specification may request.  Only `SimpleText`
/// is implemented; the others fail fast with a named "not implemented"
/// error rather than silently producing a wrong asset.
#[derive(Debug, Clone)]
pub enum VideoTemplate {
    SimpleText,
    TitleCard,
    Slideshow { slides: Vec<String> },
}

/// A caller-owned, immutable description of one video: title text, colors,
/// duration, font size, and an optional audio track path.
#[derive(Debug, Clone)]
pub struct VideoSpec {
    /// The text drawn on every frame, and the source of the output name.
    pub title: String,
    /// The requested template variant.
    pub template: VideoTemplate,
    /// Requested length of the video, in seconds.
    pub duration_seconds: u32,
    /// Background fill, as a six-hex-digit color string (`#` optional).
    pub background_color: String,
    /// Text color, as a six-hex-digit color string (`#` optional).
    pub text_color: String,
    /// Text height, in pixels.
    pub font_size: u32,
    /// Path of an audio file to carry as a second stream, if any.
    pub audio_track: Option<String>,
}

} // verus!
