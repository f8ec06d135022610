//! The encode/mux session: its fixed output profile and the strictly
//! sequential lifecycle with its timestamp bookkeeping.  The unverified
//! shell drives the codec; every decision it follows — which phase may
//! come next, which presentation timestamp the next frame carries, when
//! the flush and the trailer are due — is computed and proved here.

use vstd::prelude::*;

verus! {

/// The fixed output profile every video is encoded with.
pub struct EncoderProfile {
    /// Frame width, in pixels.
    pub width: u32,
    /// Frame height, in pixels.
    pub height: u32,
    /// Frames per second.
    pub fps: u32,
    /// Numerator of the encoder's time unit.
    pub time_base_num: u32,
    /// Denominator of the encoder's time unit: one tick is 1/30 s.
    pub time_base_den: u32,
    /// Target bit rate, in bits per second.
    pub bit_rate: u64,
    /// Bit rate ceiling, in bits per second.
    pub max_bit_rate: u64,
    /// Keyframe interval, in frames.
    pub gop: u32,
    /// Lower quantizer bound.
    pub qmin: u32,
    /// Upper quantizer bound.
    pub qmax: u32,
}

/// The one profile the pipeline uses: 1080 x 1920 at 30 fps, 2 Mbps with a
/// 2.5 Mbps ceiling, a keyframe every 30 frames, quantizer in [10, 51].
pub open spec fn fixed_profile_spec() -> EncoderProfile {
    EncoderProfile {
        width: 1080,
        height: 1920,
        fps: 30,
        time_base_num: 1,
        time_base_den: 30,
        bit_rate: 2000000,
        max_bit_rate: 2500000,
        gop: 30,
        qmin: 10,
        qmax: 51,
    }
}

/// Yields the fixed profile for the shell to program the codec with.  If
/// the container wants global stream headers, the shell must also tell the
/// encoder to emit its parameter sets into them.
pub fn fixed_profile() -> (p: EncoderProfile)
    ensures
        p == fixed_profile_spec(),
{
    EncoderProfile {
        width: 1080,
        height: 1920,
        fps: 30,
        time_base_num: 1,
        time_base_den: 30,
        bit_rate: 2000000,
        max_bit_rate: 2500000,
        gop: 30,
        qmin: 10,
        qmax: 51,
    }
}

/// Where a session stands in its strictly sequential lifecycle.
#[derive(Debug, Clone, Copy, PartialEq, Eq, Structural)]
pub enum EncoderPhase {
    /// The codec is programmed; nothing is written yet.
    Configured,
    /// The container header is committed; frames may now be encoded.
    HeaderWritten,
    /// End-of-stream was signalled and the codec's latency drained.
    Flushed,
    /// The container trailer is written; no further writes are permitted.
    Finalized,
}

/// The bookkeeping of one encode/mux session.  It never runs backwards:
/// the header comes before any frame, every frame carries its 0-based
/// index as its presentation timestamp, the flush comes only when all
/// frames are in, and the trailer only after the flush.
pub struct EncoderSession {
    /// Where the session stands.
    pub phase: EncoderPhase,
    /// How many frames the session will encode in total.
    pub total_frames: u64,
    /// How many frames were submitted so far.
    pub frames_submitted: u64,
}

impl EncoderSession {
    /// The counters stay consistent: no more frames submitted than owed,
    /// and few enough that a timestamp always fits its signed carrier.
    pub open spec fn wf(&self) -> bool {
        self.frames_submitted <= self.total_frames && self.total_frames <= 30 * (u32::MAX as u64)
    }

    /// Opens the bookkeeping for a video of the requested duration: at the
    /// fixed 30 fps rate, `30 * duration_seconds` frames are owed.
    pub fn configure(duration_seconds: u32) -> (s: EncoderSession)
        ensures
            s.wf(),
            s.phase is Configured,
            s.total_frames == 30 * duration_seconds,
            s.frames_submitted == 0,
    {
        EncoderSession {
            phase: EncoderPhase::Configured,
            total_frames: 30 * (duration_seconds as u64),
            frames_submitted: 0,
        }
    }

    /// Records that the container header is committed.  The container
    /// format requires this before any compressed data.
    pub fn header_written(&mut self)
        requires
            old(self).wf(),
            old(self).phase is Configured,
        ensures
            final(self).wf(),
            final(self).phase is HeaderWritten,
            final(self).total_frames == old(self).total_frames,
            final(self).frames_submitted == old(self).frames_submitted,
    {
        self.phase = EncoderPhase::HeaderWritten;
    }

    /// The presentation timestamp the next frame must carry: its 0-based
    /// index in encoder time units.  `None` once every owed frame is in.
    pub fn next_pts(&self) -> (p: Option<i64>)
        requires
            self.wf(),
            self.phase is HeaderWritten,
        ensures
            p is Some <==> self.frames_submitted < self.total_frames,
            p matches Some(t) ==> t == self.frames_submitted,
    {
        if self.frames_submitted < self.total_frames {
            Some(self.frames_submitted as i64)
        } else {
            None
        }
    }

    /// Records one submitted frame.
    pub fn frame_submitted(&mut self)
        requires
            old(self).wf(),
            old(self).phase is HeaderWritten,
            old(self).frames_submitted < old(self).total_frames,
        ensures
            final(self).wf(),
            final(self).phase is HeaderWritten,
            final(self).total_frames == old(self).total_frames,
            final(self).frames_submitted == old(self).frames_submitted + 1,
    {
        self.frames_submitted = self.frames_submitted + 1;
    }

    /// Records the end-of-stream flush.  It is owed exactly when every
    /// frame is in — encoders hold several frames of latency, so the drain
    /// is mandatory even though no more input exists.
    pub fn flushed(&mut self)
        requires
            old(self).wf(),
            old(self).phase is HeaderWritten,
            old(self).frames_submitted == old(self).total_frames,
        ensures
            final(self).wf(),
            final(self).phase is Flushed,
            final(self).total_frames == old(self).total_frames,
            final(self).frames_submitted == old(self).frames_submitted,
    {
        self.phase = EncoderPhase::Flushed;
    }

    /// Records the trailer write that finalizes the container.
    pub fn trailer_written(&mut self)
        requires
            old(self).wf(),
            old(self).phase is Flushed,
        ensures
            final(self).wf(),
            final(self).phase is Finalized,
            final(self).total_frames == old(self).total_frames,
            final(self).frames_submitted == old(self).frames_submitted,
    {
        self.phase = EncoderPhase::Finalized;
    }
}

} // verus!
