//! The configuration records upstream collaborators supply: directory
//! paths, scheduling, and per-platform switches.  Loading and validating
//! them from persisted form is an external collaborator's business.

use vstd::prelude::*;

verus! {

/// Settings of the video pipeline itself.
#[derive(Debug)]
pub struct VideoConfig {
    /// Directory finished containers are written under.
    pub output_directory: String,
    /// Directory for intermediate working files.
    pub temp_directory: String,
    /// Whether a finished container is deleted after its upload.
    pub cleanup_after_upload: bool,
}

/// When the daily post is made.
#[derive(Debug)]
pub struct SchedulingConfig {
    /// IANA name of the schedule's time zone.
    pub timezone: String,
    /// Wall-clock time of the daily post.
    pub daily_post_time: String,
}

/// Switches for one upload platform.
#[derive(Debug)]
pub struct PlatformConfig {
    /// Whether this platform receives uploads at all.
    pub enabled: bool,
    /// Whether uploads start out private.
    pub upload_as_private: Option<bool>,
    /// Cap on uploads per day, if any.
    pub max_daily_uploads: Option<u32>,
    /// Whether the platform's client simulates failures, for testing.
    pub simulate_failures: Option<bool>,
}

/// The switches of every supported platform.
#[derive(Debug)]
pub struct PlatformsConfig {
    pub youtube: PlatformConfig,
    pub tiktok: PlatformConfig,
    pub mock: PlatformConfig,
}

/// Everything the orchestration above the pipeline is configured with.
#[derive(Debug)]
pub struct Config {
    pub video: VideoConfig,
    pub scheduling: SchedulingConfig,
    pub platforms: PlatformsConfig,
}

} // verus!
