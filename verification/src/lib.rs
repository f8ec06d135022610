//! Synthesis and validation of short vertical-format videos.
//!
//! The library plans a video from a declarative [`VideoSpec`]: it parses the
//! colors, rasterizes the solid background frame, computes the text layout,
//! converts pixels into a 4:2:0 luma/chroma plane layout, tracks the encoder
//! session's timestamp bookkeeping, and judges a produced container against
//! fixed publishing constraints.  Everything here is pure computation with a
//! proved contract; opening files, driving the codec and drawing glyphs are
//! left to an unverified shell around the library.

pub mod color;
pub mod config;
pub mod content;
pub mod encoder;
pub mod error;
pub mod frame;
pub mod platforms;
pub mod synth;
pub mod validation;
pub mod video;

pub use color::{parse_hex_color, rgb_to_yuv};
pub use config::Config;
pub use content::{ContentItem, ContentSelector};
pub use error::VideoError;
pub use platforms::{PrivacyLevel, VideoMetadata};
pub use synth::VideoGenerator;
pub use validation::{VideoValidation, VideoValidator};
pub use video::{VideoSpec, VideoTemplate};
