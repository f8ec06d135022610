//! Planning a video from its declarative specification: the sanitized
//! output path, the template dispatch, and the geometry of the text
//! overlay.

use vstd::prelude::*;
use vstd::utf8::encode_utf8;
use crate::color::{hex_channel, hex_color_wf, parse_hex_color};
use crate::error::VideoError;
use crate::validation::{verdict_spec, whole_seconds, ProbeReport};
use crate::video::{VideoSpec, VideoTemplate};

verus! {

// ------------------------------------------------------------------
// Title sanitization
// ------------------------------------------------------------------

/// Relies on char::is_alphanumeric: whether the character has a Unicode
/// `Alphabetic` or `Numeric` general category, a function of the character
/// alone.
pub uninterp spec fn is_alphanumeric_char(c: char) -> bool;

/// Relies on char::is_alphanumeric, named by `is_alphanumeric_char`; the
/// documentation promises that ASCII letters and digits satisfy it.
pub assume_specification[ char::is_alphanumeric ](c: char) -> (r: bool)
    ensures
        r == is_alphanumeric_char(c),
        ('0' <= c && c <= '9') || ('a' <= c && c <= 'z') || ('A' <= c && c <= 'Z') ==> r,
;

/// Relies on String::push: appends exactly the one character.
pub assume_specification[ String::push ](s: &mut String, c: char)
    ensures
        final(s)@ == old(s)@.push(c),
;

/// Whether a title character survives sanitization: alphanumerics, `-` and
/// `_` are kept, everything else (spaces included) is dropped.
pub open spec fn keep_char(c: char) -> bool {
    is_alphanumeric_char(c) || c == '-' || c == '_'
}

/// The sanitization predicate as a value, so contracts and proofs speak of
/// one identical filter.
pub open spec fn keep_pred() -> spec_fn(char) -> bool {
    |c: char| keep_char(c)
}

/// A title with every character not fit for a file name dropped.
pub open spec fn sanitized(title: Seq<char>) -> Seq<char> {
    title.filter(keep_pred())
}

/// Drops every character of the title that is not alphanumeric, `-` or `_`.
pub fn sanitize_title(title: &str) -> (out: String)
    ensures
        out@ == sanitized(title@),
{
    let n = title.unicode_len();
    let mut out = String::new();
    let mut i: usize = 0;
    while i < n
        invariant
            n == title@.len(),
            i <= n,
            out@ == title@.take(i as int).filter(keep_pred()),
        decreases n - i,
    {
        let c = title.get_char(i);
        proof {
            reveal_with_fuel(Seq::filter, 2);
            assert(title@.take(i + 1).drop_last() =~= title@.take(i as int));
            assert(title@.take(i + 1).last() == c);
            assert(title@.take(i + 1).filter(keep_pred()) == (if keep_char(c) {
                title@.take(i as int).filter(keep_pred()).push(c)
            } else {
                title@.take(i as int).filter(keep_pred())
            }));
        }
        if c.is_alphanumeric() || c == '-' || c == '_' {
            out.push(c);
        }
        i = i + 1;
    }
    proof {
        assert(title@.take(n as int) =~= title@);
    }
    out
}

// ------------------------------------------------------------------
// Text layout
// ------------------------------------------------------------------

/// The estimated width of the drawn title in tenths of a pixel: six
/// tenths of the font size per byte of the title, a deliberate
/// approximation rather than true glyph metrics.
pub open spec fn estimated_width_tenths(title_bytes: int, font_size: u32) -> int {
    title_bytes * font_size * 6
}

/// The horizontal origin of the text: `(1080 - estimated_width) / 2`,
/// truncated only at the end, but never left of a 50 px minimum margin.
pub open spec fn text_x_spec(title_bytes: int, font_size: u32) -> int {
    if estimated_width_tenths(title_bytes, font_size) <= 9800 {
        (10800 - estimated_width_tenths(title_bytes, font_size)) / 20
    } else {
        50
    }
}

/// The vertical origin of the text: vertically centered, `960 - font_size/2`
/// truncated toward zero.
pub open spec fn text_y_spec(font_size: u32) -> int {
    if font_size <= 1920 {
        (1920 - font_size) / 2
    } else {
        -(((font_size - 1920) / 2) as int)
    }
}

/// Computes the text origin for a title of `title_bytes` bytes at the given
/// font size.
pub fn text_origin(title_bytes: usize, font_size: u32) -> (xy: (i64, i64))
    ensures
        xy.0 == text_x_spec(title_bytes as int, font_size),
        xy.1 == text_y_spec(font_size),
{
    proof {
        assert((title_bytes as int) * (font_size as int) * 6 < u128::MAX as int)
            by (nonlinear_arith)
            requires
                0 <= title_bytes <= u64::MAX,
                0 <= font_size <= u32::MAX,
        ;
    }
    let w: u128 = (title_bytes as u128) * (font_size as u128) * 6;
    let x: i64 = if w <= 9800 {
        ((10800 - w as u32) / 20) as i64
    } else {
        50
    };
    let y: i64 = if font_size <= 1920 {
        ((1920 - font_size) / 2) as i64
    } else {
        -(((font_size - 1920) / 2) as i64)
    };
    (x, y)
}

// ------------------------------------------------------------------
// Overlay planning
// ------------------------------------------------------------------

/// Everything a renderer needs to draw the one static frame: the parsed
/// colors, the font size, and the text origin.
#[derive(Debug)]
pub struct OverlayPlan {
    /// Parsed background fill color.
    pub background: (u8, u8, u8),
    /// Parsed text color.
    pub text_color: (u8, u8, u8),
    /// Text height, in pixels.
    pub font_size: u32,
    /// Horizontal origin of the text, in pixels from the left edge.
    pub text_x: i64,
    /// Vertical origin of the text, in pixels from the top edge.
    pub text_y: i64,
    /// The title to draw.
    pub title: String,
}

/// The title's length in bytes, as the platform's word size holds it: the
/// measure the width estimate is taken over.
pub open spec fn title_byte_len(t: Seq<char>) -> int {
    (encode_utf8(t).len() as usize) as int
}

/// Whether an overlay plan is exactly what the specification asks for.
pub open spec fn overlay_plan_matches(p: OverlayPlan, s: VideoSpec) -> bool {
    &&& p.background.0 == hex_channel(s.background_color@, 0)
    &&& p.background.1 == hex_channel(s.background_color@, 1)
    &&& p.background.2 == hex_channel(s.background_color@, 2)
    &&& p.text_color.0 == hex_channel(s.text_color@, 0)
    &&& p.text_color.1 == hex_channel(s.text_color@, 1)
    &&& p.text_color.2 == hex_channel(s.text_color@, 2)
    &&& p.font_size == s.font_size
    &&& p.text_x == text_x_spec(title_byte_len(s.title@), s.font_size)
    &&& p.text_y == text_y_spec(s.font_size)
    &&& p.title@ == s.title@
}

/// Plans the overlay for a specification: parses both colors and computes
/// the text origin.  Fails with `InvalidColorFormat` on the background
/// color first, then on the text color, exactly when either is malformed.
pub fn plan_overlay(spec: &VideoSpec) -> (r: Result<OverlayPlan, VideoError>)
    ensures
        r is Ok <==> hex_color_wf(spec.background_color@) && hex_color_wf(spec.text_color@),
        r matches Ok(p) ==> overlay_plan_matches(p, *spec),
        !hex_color_wf(spec.background_color@) ==> (r matches Err(e) && e matches
            VideoError::InvalidColorFormat(s) && s@ == spec.background_color@),
        hex_color_wf(spec.background_color@) && !hex_color_wf(spec.text_color@) ==> (r matches Err(
            e,
        ) && e matches VideoError::InvalidColorFormat(s) && s@ == spec.text_color@),
{
    let background = match parse_hex_color(spec.background_color.as_str()) {
        Ok(c) => c,
        Err(e) => {
            return Err(e);
        },
    };
    let text_color = match parse_hex_color(spec.text_color.as_str()) {
        Ok(c) => c,
        Err(e) => {
            return Err(e);
        },
    };
    let (text_x, text_y) = text_origin(spec.title.as_str().len(), spec.font_size);
    Ok(
        OverlayPlan {
            background,
            text_color,
            font_size: spec.font_size,
            text_x,
            text_y,
            title: spec.title.clone(),
        },
    )
}

// ------------------------------------------------------------------
// The synthesizer
// ------------------------------------------------------------------

/// The output file's path: the sanitized title with an `.mp4` suffix,
/// under the output directory.
pub open spec fn output_path_spec(dir: Seq<char>, title: Seq<char>) -> Seq<char> {
    dir + "/"@ + sanitized(title) + ".mp4"@
}

/// Everything the unverified shell must do to realize one video: where to
/// write it, what to draw, how many frames to encode, and which audio
/// track the caller insists on.
#[derive(Debug)]
pub struct SynthesisPlan {
    /// Path of the container file to produce.
    pub output_path: String,
    /// The one static frame to draw and encode repeatedly.
    pub overlay: OverlayPlan,
    /// Total number of video frames: duration times the fixed 30 fps rate.
    pub total_frames: u64,
    /// The audio file to carry as a second stream, if the specification
    /// asks for one.  A requested track that cannot be opened must fail
    /// the whole synthesis; there is no silent degrade.
    pub audio_track: Option<String>,
}

/// Whether a synthesis plan is exactly what the specification asks for
/// under the given output directory.
pub open spec fn plan_matches(p: SynthesisPlan, dir: Seq<char>, s: VideoSpec) -> bool {
    &&& p.output_path@ == output_path_spec(dir, s.title@)
    &&& overlay_plan_matches(p.overlay, s)
    &&& p.total_frames == 30 * s.duration_seconds
    &&& p.audio_track == s.audio_track
}

/// Orchestrates synthesis per specification: resolves the template
/// variant, plans the overlay, and computes the output path and total
/// frame count.
pub struct VideoGenerator {
    /// Directory the finished containers are written under.
    pub output_dir: String,
    /// Directory for intermediate working files.
    pub temp_dir: String,
}

impl VideoGenerator {
    /// Remembers the directories the synthesizer works under.  Creating
    /// them on disk (recursively, idempotently) is the shell's business.
    pub fn new(output_dir: String, temp_dir: String) -> (g: VideoGenerator)
        ensures
            g.output_dir@ == output_dir@,
            g.temp_dir@ == temp_dir@,
    {
        VideoGenerator { output_dir, temp_dir }
    }

    /// The path the video for this title is written to.
    pub fn output_path(&self, title: &str) -> (p: String)
        ensures
            p@ == output_path_spec(self.output_dir@, title@),
    {
        let mut p = self.output_dir.clone();
        p.append("/");
        let name = sanitize_title(title);
        p.append(name.as_str());
        p.append(".mp4");
        assert(p@ =~= output_path_spec(self.output_dir@, title@));
        p
    }

    /// Plans the video a specification asks for.  Only the `SimpleText`
    /// template is implemented: any other variant fails with
    /// `TemplateNotImplemented` carrying the variant's name, before the
    /// colors are even looked at.  Running the same specification twice
    /// plans the same output path: a second synthesis overwrites the
    /// first.
    pub fn generate_video(&self, spec: &VideoSpec) -> (r: Result<SynthesisPlan, VideoError>)
        ensures
            r is Ok <==> (spec.template is SimpleText && hex_color_wf(spec.background_color@)
                && hex_color_wf(spec.text_color@)),
            r matches Ok(p) ==> plan_matches(p, self.output_dir@, *spec),
            spec.template is TitleCard ==> (r matches Err(e) && e matches
                VideoError::TemplateNotImplemented(n) && n@ == "TitleCard"@),
            spec.template is Slideshow ==> (r matches Err(e) && e matches
                VideoError::TemplateNotImplemented(n) && n@ == "Slideshow"@),
            spec.template is SimpleText && !hex_color_wf(spec.background_color@) ==> (r matches Err(
                e,
            ) && e matches VideoError::InvalidColorFormat(s) && s@ == spec.background_color@),
            spec.template is SimpleText && hex_color_wf(spec.background_color@)
                && !hex_color_wf(spec.text_color@) ==> (r matches Err(e) && e matches
                VideoError::InvalidColorFormat(s) && s@ == spec.text_color@),
    {
        let output_path = self.output_path(spec.title.as_str());
        match &spec.template {
            VideoTemplate::SimpleText => {
                let overlay = match plan_overlay(spec) {
                    Ok(o) => o,
                    Err(e) => {
                        return Err(e);
                    },
                };
                let audio_track = match &spec.audio_track {
                    Some(a) => Some(a.clone()),
                    None => None,
                };
                Ok(
                    SynthesisPlan {
                        output_path,
                        overlay,
                        total_frames: 30 * (spec.duration_seconds as u64),
                        audio_track,
                    },
                )
            },
            VideoTemplate::TitleCard => Err(
                VideoError::TemplateNotImplemented("TitleCard".to_owned()),
            ),
            VideoTemplate::Slideshow { slides: _ } => Err(
                VideoError::TemplateNotImplemented("Slideshow".to_owned()),
            ),
        }
    }
}

/// A faithfully encoded plan reads back with the duration its
/// specification requested: the planned frame count, carried as ticks of
/// the encoder's 1/30 s time unit, is exactly `duration_seconds` whole
/// seconds to the validator; a probe that also reports the fixed geometry
/// earns `correct_dimensions`, and any requested duration within [10, 60]
/// earns `duration_in_range`.
pub proof fn lemma_plan_duration_reads_back(
    s: VideoSpec,
    plan: SynthesisPlan,
    dir: Seq<char>,
    p: ProbeReport,
)
    requires
        plan_matches(plan, dir, s),
        p.width == 1080,
        p.height == 1920,
        p.duration_ticks == plan.total_frames,
        p.time_base_num == 1,
        p.time_base_den == 30,
    ensures
        whole_seconds(p.duration_ticks, p.time_base_num, p.time_base_den) == s.duration_seconds,
        verdict_spec(p).correct_dimensions,
        10 <= s.duration_seconds <= 60 ==> verdict_spec(p).duration_in_range,
{
    assert((30 * (s.duration_seconds as int) * 1) / 30 == s.duration_seconds as int);
}

} // verus!
