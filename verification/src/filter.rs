//! The averaging transform element.
//!
//! `AvgFilter` is the pluggable processing unit the host runtime drives: it
//! declares its descriptive metadata and its fixed capability templates, and
//! it mutates each delivered frame in place into a single solid color equal
//! to the frame's average pixel. It never requests a separate output buffer
//! and is never bypassed; format negotiation is the host's business.

use vstd::prelude::*;

use crate::avg::{avgcolor, channel_avg, lemma_channel_avg_bounds, transformed, MAX_FRAME_BYTES};

verus! {

/// Descriptive record of a processing element: name, category, description
/// and author, computed once and handed to the host read-only.
pub struct ElementMetadata {
    pub long_name: String,
    pub classification: String,
    pub description: String,
    pub author: String,
}

/// Direction of a pad template: an input (sink) or an output (source) side.
#[derive(Clone, Copy, PartialEq, Eq, Structural, Debug)]
pub enum PadDirection {
    Sink,
    Src,
}

/// Availability of a pad: the filter's pads always exist.
#[derive(Clone, Copy, PartialEq, Eq, Structural, Debug)]
pub enum PadPresence {
    Always,
}

/// Media class of a capability declaration: raw, uncompressed video.
#[derive(Clone, Copy, PartialEq, Eq, Structural, Debug)]
pub enum MediaType {
    RawVideo,
}

/// Pixel memory layout: four interleaved byte channels, red, green, blue and
/// one padding byte.
#[derive(Clone, Copy, PartialEq, Eq, Structural, Debug)]
pub enum PixelLayout {
    Rgbx,
}

/// A structured media-capability descriptor: which media class and which
/// pixel layout a pad accepts or produces.
#[derive(Clone, Copy, PartialEq, Eq, Structural, Debug)]
pub struct VideoCaps {
    pub media_type: MediaType,
    pub format: PixelLayout,
}

/// A declared input/output format contract of the element: direction,
/// presence and the capability descriptor.
#[derive(Clone, Copy, PartialEq, Eq, Structural, Debug)]
pub struct PadTemplate {
    pub direction: PadDirection,
    pub presence: PadPresence,
    pub caps: VideoCaps,
}

/// The one format the filter accepts and produces.
pub open spec fn fixed_caps() -> VideoCaps {
    VideoCaps { media_type: MediaType::RawVideo, format: PixelLayout::Rgbx }
}

/// How the transform operates on buffers.
#[derive(Clone, Copy, PartialEq, Eq, Structural, Debug)]
pub enum TransformMode {
    /// The unit never requests a separate output buffer: every frame is
    /// rewritten where it lies.
    AlwaysInPlace,
}

/// Failure of the in-place transform.
#[derive(Clone, Copy, PartialEq, Eq, Structural, Debug)]
pub enum TransformError {
    /// The frame held no pixel record at all; averaging it is impossible and
    /// the call is rejected rather than dividing by zero.
    TransformPrecondition,
}

/// The averaging transform element. It carries only its optional instance
/// name; all its behaviour is stateless.
pub struct AvgFilter {
    pub name: Option<String>,
}

impl AvgFilter {
    /// Create a filter instance, optionally named.
    pub fn new(name: Option<&str>) -> (f: AvgFilter)
        ensures
            f.name is Some <==> name is Some,
            name matches Some(s) ==> f.name matches Some(t) && t@ == s@,
    {
        match name {
            Some(s) => AvgFilter { name: Some(s.to_owned()) },
            None => AvgFilter { name: None },
        }
    }

    /// The unit's operating mode: always in place, never a separate output
    /// buffer.
    pub fn mode() -> (m: TransformMode)
        ensures
            m == TransformMode::AlwaysInPlace,
    {
        TransformMode::AlwaysInPlace
    }

    /// Passthrough is disabled outright: even when upstream and downstream
    /// formats match, the averaging still runs on every frame.
    pub fn passthrough_on_same_caps() -> (b: bool)
        ensures
            !b,
    {
        false
    }

    /// Frames are transformed in place even on a passthrough-eligible path:
    /// the filter is never bypassed.
    pub fn transform_ip_on_passthrough() -> (b: bool)
        ensures
            b,
    {
        true
    }

    /// The element's immutable descriptive record.
    pub fn metadata() -> (m: ElementMetadata)
        ensures
            m.long_name@ == "Avg Filter"@,
            m.classification@ == "Visualization"@,
            m.description@ == "An avg filter"@,
            m.author@ == "me (someone@example.com)"@,
    {
        ElementMetadata {
            long_name: "Avg Filter".to_owned(),
            classification: "Visualization".to_owned(),
            description: "An avg filter".to_owned(),
            author: "me (someone@example.com)".to_owned(),
        }
    }

    /// The element's two capability templates: a sink pad accepting the fixed
    /// raw-video pixel format and a source pad producing it. Both declare one
    /// and the same format; only the direction differs.
    pub fn pad_templates() -> (ts: Vec<PadTemplate>)
        ensures
            ts@.len() == 2,
            ts@[0].direction == PadDirection::Sink,
            ts@[1].direction == PadDirection::Src,
            ts@[0].presence == PadPresence::Always,
            ts@[1].presence == PadPresence::Always,
            ts@[0].caps == fixed_caps(),
            ts@[1].caps == fixed_caps(),
            ts@[0].caps == ts@[1].caps,
    {
        let caps = VideoCaps { media_type: MediaType::RawVideo, format: PixelLayout::Rgbx };
        let mut ts: Vec<PadTemplate> = Vec::new();
        ts.push(PadTemplate { direction: PadDirection::Sink, presence: PadPresence::Always, caps });
        ts.push(PadTemplate { direction: PadDirection::Src, presence: PadPresence::Always, caps });
        ts
    }

    /// Overwrite every pixel record of `frame` with the frame's average
    /// color, in place: no reallocation, no copy, no change of length. A
    /// frame without any pixel record is rejected as a precondition
    /// violation and left untouched.
    pub fn transform_in_place(&self, frame: &mut Vec<u8>) -> (r: Result<(), TransformError>)
        requires
            old(frame)@.len() % 4 == 0,
            old(frame)@.len() <= MAX_FRAME_BYTES,
        ensures
            final(frame)@.len() == old(frame)@.len(),
            r is Err <==> old(frame)@.len() == 0,
            old(frame)@.len() == 0 ==> final(frame)@ == old(frame)@ && r == Err::<
                (),
                TransformError,
            >(TransformError::TransformPrecondition),
            old(frame)@.len() > 0 ==> final(frame)@ == transformed(old(frame)@),
    {
        if frame.len() == 0 {
            return Err(TransformError::TransformPrecondition);
        }
        let avg = avgcolor(frame);
        let n = frame.len();
        let mut i: usize = 0;
        while i < n
            invariant
                i <= n,
                n == frame@.len(),
                n == old(frame)@.len(),
                n % 4 == 0,
                n > 0,
                avg.r == channel_avg(old(frame)@, 0),
                avg.g == channel_avg(old(frame)@, 1),
                avg.b == channel_avg(old(frame)@, 2),
                avg.x == channel_avg(old(frame)@, 3),
                forall|j: int| 0 <= j < i ==> frame@[j] == transformed(old(frame)@)[j],
            decreases n - i,
        {
            let c = i % 4;
            let v = if c == 0 {
                avg.r
            } else if c == 1 {
                avg.g
            } else if c == 2 {
                avg.b
            } else {
                avg.x
            };
            frame[i] = v;
            proof {
                lemma_channel_avg_bounds(old(frame)@, i as int % 4);
            }
            i = i + 1;
        }
        proof {
            assert(frame@ =~= transformed(old(frame)@));
        }
        Ok(())
    }
}

} // verus!
