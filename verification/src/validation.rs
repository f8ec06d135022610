//! Judging a produced container file against the fixed publishing
//! constraints.  The unverified shell opens the container and reports the
//! plain facts it decoded; everything judged from those facts is proved
//! here.

use vstd::prelude::*;
use crate::error::VideoError;

verus! {

/// The on-disk size bound, in bytes: strictly under 50 MiB.
pub const FILE_SIZE_LIMIT: u64 = 52428800;

/// What an independent decode of a produced container reports: the plain
/// facts of its best video stream, the file, and whether any audio stream is
/// present.
pub struct ProbeReport {
    /// Decoded width of the video stream, in pixels.
    pub width: u32,
    /// Decoded height of the video stream, in pixels.
    pub height: u32,
    /// Raw duration of the video stream, in stream time-base units.
    pub duration_ticks: i64,
    /// Numerator of the stream's time base.
    pub time_base_num: i32,
    /// Denominator of the stream's time base.
    pub time_base_den: i32,
    /// On-disk size of the container file, in bytes.
    pub file_size: u64,
    /// Whether the container offers any audio stream.
    pub has_audio: bool,
}

impl ProbeReport {
    /// A probe's time base is a fraction of a second: its denominator is
    /// positive.
    pub open spec fn wf(&self) -> bool {
        self.time_base_den >= 1
    }
}

/// The stream duration in whole seconds: raw ticks times the time base,
/// truncated, and held to the 32-bit range as a saturating cast would.
pub open spec fn whole_seconds(ticks: i64, num: i32, den: i32) -> int {
    let q = (ticks * num) / (den as int);
    if q < 0 {
        0
    } else if q > u32::MAX {
        u32::MAX as int
    } else {
        q
    }
}

/// Computes a stream's duration in whole seconds from its raw tick count
/// and time base.
pub fn duration_whole_seconds(ticks: i64, num: i32, den: i32) -> (s: u32)
    requires
        den >= 1,
    ensures
        s == whole_seconds(ticks, num, den),
{
    proof {
        assert((i128::MIN as int) < (ticks as int) * (num as int) < (i128::MAX as int))
            by (nonlinear_arith)
            requires
                i64::MIN <= ticks <= i64::MAX,
                i32::MIN <= num <= i32::MAX,
        ;
    }
    let prod: i128 = ticks as i128 * num as i128;
    if prod <= 0 {
        proof {
            assert((ticks * num) / (den as int) <= 0) by (nonlinear_arith)
                requires
                    ticks * num <= 0,
                    den >= 1,
            ;
        }
        0
    } else {
        let q: i128 = prod / den as i128;
        assert(q == (ticks * num) / (den as int));
        assert(q >= 0);
        if q > u32::MAX as i128 {
            u32::MAX
        } else {
            q as u32
        }
    }
}

/// The five structural facts of a validated video, reported together, plus
/// the derived verdicts.
#[derive(Debug, Clone, Copy, PartialEq, Eq, Structural)]
pub struct VideoValidation {
    /// The video stream decodes at exactly 1080 x 1920.
    pub correct_dimensions: bool,
    /// The stream duration, in whole seconds, is within [10, 60].
    pub duration_in_range: bool,
    /// The file is strictly under the 50 MiB limit.
    pub file_size_under_limit: bool,
    /// Any audio stream is present.  Informational only.
    pub has_audio: bool,
    /// The container and its video stream opened and decoded.
    pub is_playable: bool,
}

/// Overall validity: every structural fact except the informational audio
/// flag.
pub open spec fn valid_spec(v: VideoValidation) -> bool {
    v.correct_dimensions && v.duration_in_range && v.file_size_under_limit && v.is_playable
}

/// The exact mark `get_summary` prints for one fact.
pub open spec fn summary_mark(ok: bool) -> Seq<char> {
    if ok {
        "\u{2705}"@
    } else {
        "\u{274c}"@
    }
}

/// The mark for the informational audio fact: absence is neutral, not a
/// failure.
pub open spec fn audio_mark(present: bool) -> Seq<char> {
    if present {
        "\u{2705}"@
    } else {
        "\u{2796}"@
    }
}

/// The full summary line `get_summary` returns.
pub open spec fn summary_spec(v: VideoValidation) -> Seq<char> {
    "Dimensions: "@ + summary_mark(v.correct_dimensions) + ", Duration: "@ + summary_mark(
        v.duration_in_range,
    ) + ", Size: "@ + summary_mark(v.file_size_under_limit) + ", Audio: "@ + audio_mark(
        v.has_audio,
    ) + ", Playable: "@ + summary_mark(v.is_playable)
}

impl VideoValidation {
    /// Whether the video meets every gating constraint.  The audio fact
    /// never participates.
    pub fn is_valid(&self) -> (v: bool)
        ensures
            v == valid_spec(*self),
    {
        self.correct_dimensions && self.duration_in_range && self.file_size_under_limit
            && self.is_playable
    }

    /// Whether the video meets production requirements: valid, and the
    /// requested duration is within [10, 60] seconds.
    pub fn is_production_ready(&self, duration_seconds: u32) -> (r: bool)
        ensures
            r == (valid_spec(*self) && 10 <= duration_seconds <= 60),
    {
        self.is_valid() && duration_seconds >= 10 && duration_seconds <= 60
    }

    /// A one-line summary of all five facts, for logging.
    pub fn get_summary(&self) -> (s: String)
        ensures
            s@ == summary_spec(*self),
    {
        let mut s = String::new();
        s.append("Dimensions: ");
        s.append(if self.correct_dimensions { "\u{2705}" } else { "\u{274c}" });
        s.append(", Duration: ");
        s.append(if self.duration_in_range { "\u{2705}" } else { "\u{274c}" });
        s.append(", Size: ");
        s.append(if self.file_size_under_limit { "\u{2705}" } else { "\u{274c}" });
        s.append(", Audio: ");
        s.append(if self.has_audio { "\u{2705}" } else { "\u{2796}" });
        s.append(", Playable: ");
        s.append(if self.is_playable { "\u{2705}" } else { "\u{274c}" });
        assert(s@ =~= summary_spec(*self));
        s
    }
}

/// The verdict a probe's facts deserve.  Each check is independent and none
/// short-circuits another; a probe that got this far opened and decoded, so
/// it counts as playable.
pub open spec fn verdict_spec(p: ProbeReport) -> VideoValidation {
    VideoValidation {
        correct_dimensions: p.width == 1080 && p.height == 1920,
        duration_in_range: 10 <= whole_seconds(p.duration_ticks, p.time_base_num, p.time_base_den)
            <= 60,
        file_size_under_limit: p.file_size < FILE_SIZE_LIMIT,
        has_audio: p.has_audio,
        is_playable: true,
    }
}

/// Judges a produced container from its decoded facts, independently of the
/// encoder that wrote it.
pub struct VideoValidator;

impl VideoValidator {
    /// Turns a probe into a validation verdict.  `None` means the container
    /// offered no video stream at all, which is fatal to validation rather
    /// than a false verdict.
    pub fn assess(probe: Option<&ProbeReport>) -> (r: Result<VideoValidation, VideoError>)
        requires
            probe matches Some(p) ==> p.wf(),
        ensures
            r is Ok <==> probe is Some,
            probe is None ==> (r matches Err(e) && e is NoVideoStream),
            probe matches Some(p) ==> (r matches Ok(v) && v == verdict_spec(*p)),
    {
        match probe {
            None => Err(VideoError::NoVideoStream),
            Some(p) => {
                let correct_dimensions = p.width == 1080 && p.height == 1920;
                let secs = duration_whole_seconds(
                    p.duration_ticks,
                    p.time_base_num,
                    p.time_base_den,
                );
                let duration_in_range = secs >= 10 && secs <= 60;
                let file_size_under_limit = p.file_size < FILE_SIZE_LIMIT;
                Ok(
                    VideoValidation {
                        correct_dimensions,
                        duration_in_range,
                        file_size_under_limit,
                        has_audio: p.has_audio,
                        is_playable: true,
                    },
                )
            },
        }
    }
}

/// The audio fact is informational only: two validations that agree on
/// everything but `has_audio` are equally valid or equally invalid.
pub proof fn lemma_audio_never_gates_validity(a: VideoValidation, b: VideoValidation)
    requires
        a.correct_dimensions == b.correct_dimensions,
        a.duration_in_range == b.duration_in_range,
        a.file_size_under_limit == b.file_size_under_limit,
        a.is_playable == b.is_playable,
    ensures
        valid_spec(a) == valid_spec(b),
{
}

/// Validation is deterministic in the facts it gates on: two probes that
/// decode the same geometry and duration and stand on the same side of the
/// size limit earn identical verdicts on every gating fact, whatever their
/// file sizes or audio streams.
pub proof fn lemma_validation_repeatable(p1: ProbeReport, p2: ProbeReport)
    requires
        p1.width == p2.width,
        p1.height == p2.height,
        p1.duration_ticks == p2.duration_ticks,
        p1.time_base_num == p2.time_base_num,
        p1.time_base_den == p2.time_base_den,
        (p1.file_size < FILE_SIZE_LIMIT) == (p2.file_size < FILE_SIZE_LIMIT),
    ensures
        verdict_spec(p1).correct_dimensions == verdict_spec(p2).correct_dimensions,
        verdict_spec(p1).duration_in_range == verdict_spec(p2).duration_in_range,
        verdict_spec(p1).file_size_under_limit == verdict_spec(p2).file_size_under_limit,
        verdict_spec(p1).is_playable == verdict_spec(p2).is_playable,
        valid_spec(verdict_spec(p1)) == valid_spec(verdict_spec(p2)),
{
}

} // verus!
