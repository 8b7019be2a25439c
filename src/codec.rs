use vstd::prelude::*;

use crate::catalog::{MediaKind, StreamDescriptor};
use crate::timing::Rational;

verus! {

/// Decoder parameters of a video stream. Formats and colour properties are
/// the container library's numeric codes.
#[derive(Clone, Copy, Debug, PartialEq, Eq, Structural)]
pub struct VideoParams {
    pub bit_rate: u64,
    pub max_bit_rate: u64,
    pub delay: u64,
    pub width: u32,
    pub height: u32,
    pub pixel_format: i32,
    pub has_b_frames: bool,
    pub aspect_ratio: Rational,
    pub color_space: i32,
    pub color_range: i32,
    pub color_primaries: i32,
    pub transfer_characteristic: i32,
    pub chroma_location: i32,
    pub references: u64,
    pub intra_dc_precision: u8,
}

/// Decoder parameters of an audio stream.
#[derive(Clone, Copy, Debug, PartialEq, Eq, Structural)]
pub struct AudioParams {
    pub bit_rate: u64,
    pub max_bit_rate: u64,
    pub delay: u64,
    pub sample_rate: u32,
    pub channels: u16,
    pub sample_format: i32,
    pub frames: u64,
    pub align: u64,
    pub channel_layout: u64,
}

/// What building a decoder from a stream's parameters gave.
#[derive(Clone, Copy, Debug, PartialEq, Eq, Structural)]
pub enum Decoded {
    Video(VideoParams),
    Audio(AudioParams),
    /// No decoder could be built, or the stream is neither video nor audio.
    Unavailable,
}

/// The codec parameters of a stream, by medium.
#[derive(Clone, Copy, Debug, PartialEq, Eq, Structural)]
pub enum CodecParameters {
    Video(VideoParams),
    Audio(AudioParams),
}

/// A stream of the report: its descriptor, and its parameters where they
/// could be resolved.
#[derive(Clone, Copy, Debug, PartialEq, Eq, Structural)]
pub struct StreamEntry {
    pub descriptor: StreamDescriptor,
    pub params: Option<CodecParameters>,
}

/// The parameters of a stream of category `kind` whose decoder gave
/// `decoded`: present only where the decoder's medium is the stream's own,
/// and only for video and audio.
pub open spec fn resolved(kind: MediaKind, decoded: Decoded) -> Option<CodecParameters> {
    match decoded {
        Decoded::Video(v) => if kind == MediaKind::Video {
            Some(CodecParameters::Video(v))
        } else {
            None
        },
        Decoded::Audio(a) => if kind == MediaKind::Audio {
            Some(CodecParameters::Audio(a))
        } else {
            None
        },
        Decoded::Unavailable => None,
    }
}

/// Resolves the codec parameters of a stream of category `kind`. A stream
/// whose decoder could not be built has none; subtitle, data and unknown
/// streams never have any.
pub fn resolve(kind: MediaKind, decoded: Decoded) -> (r: Option<CodecParameters>)
    ensures
        r == resolved(kind, decoded),
        kind != MediaKind::Video && kind != MediaKind::Audio ==> r.is_none(),
        r matches Some(CodecParameters::Video(_)) ==> kind == MediaKind::Video,
        r matches Some(CodecParameters::Audio(_)) ==> kind == MediaKind::Audio,
{
    match decoded {
        Decoded::Video(v) => if kind == MediaKind::Video {
            Some(CodecParameters::Video(v))
        } else {
            None
        },
        Decoded::Audio(a) => if kind == MediaKind::Audio {
            Some(CodecParameters::Audio(a))
        } else {
            None
        },
        Decoded::Unavailable => None,
    }
}

/// Resolution never fails for subtitle, data and unknown streams, and
/// always gives no parameters for them, whatever their decoder gave.
pub proof fn lemma_resolve_other_kinds(kind: MediaKind, decoded: Decoded)
    requires
        kind == MediaKind::Subtitle || kind == MediaKind::Data || kind == MediaKind::Unknown,
    ensures
        resolved(kind, decoded) == None::<CodecParameters>,
{
}

} // verus!
