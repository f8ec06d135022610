//! The records handed to upload platforms.  The platform clients
//! themselves — network, authentication, retry — live outside the
//! library.

use vstd::prelude::*;

verus! {

/// How visible an uploaded video is.
#[derive(Debug, Clone, Copy, PartialEq, Eq, Structural)]
pub enum PrivacyLevel {
    Public,
    Private,
    Unlisted,
}

/// What an upload client publishes alongside the container file.
#[derive(Debug)]
pub struct VideoMetadata {
    /// Title shown on the platform.
    pub title: String,
    /// Long-form description.
    pub description: String,
    /// Search tags.
    pub tags: Vec<String>,
    /// Requested visibility.
    pub privacy: PrivacyLevel,
}

} // verus!
