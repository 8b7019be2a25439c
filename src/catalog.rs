use vstd::prelude::*;

use crate::codec::Decoded;
use crate::timing::Rational;

verus! {

/// The media category of an elementary stream.
#[derive(Clone, Copy, Debug, PartialEq, Eq, Structural)]
pub enum MediaKind {
    Video,
    Audio,
    Subtitle,
    Data,
    Unknown,
}

/// Medium codes as containers declare them.
pub const MEDIUM_VIDEO: i32 = 0;
pub const MEDIUM_AUDIO: i32 = 1;
pub const MEDIUM_DATA: i32 = 2;
pub const MEDIUM_SUBTITLE: i32 = 3;

/// Disposition bit: the container's declared default stream of its category.
pub const DISPOSITION_DEFAULT: u32 = 0x1;
/// Disposition bit: a stream that must be shown (forced subtitles).
pub const DISPOSITION_FORCED: u32 = 0x40;
/// Disposition bit: a still picture attached to the file, such as cover art.
pub const DISPOSITION_ATTACHED_PIC: u32 = 0x400;

/// The category of a declared medium code; a code outside the four known
/// media is `Unknown`.
pub open spec fn kind_of_medium(code: i32) -> MediaKind {
    if code == MEDIUM_VIDEO {
        MediaKind::Video
    } else if code == MEDIUM_AUDIO {
        MediaKind::Audio
    } else if code == MEDIUM_DATA {
        MediaKind::Data
    } else if code == MEDIUM_SUBTITLE {
        MediaKind::Subtitle
    } else {
        MediaKind::Unknown
    }
}

/// Maps a declared medium code to its category; unrecognised codes map to
/// `Unknown`.
pub fn media_kind(code: i32) -> (r: MediaKind)
    ensures
        r == kind_of_medium(code),
{
    if code == MEDIUM_VIDEO {
        MediaKind::Video
    } else if code == MEDIUM_AUDIO {
        MediaKind::Audio
    } else if code == MEDIUM_DATA {
        MediaKind::Data
    } else if code == MEDIUM_SUBTITLE {
        MediaKind::Subtitle
    } else {
        MediaKind::Unknown
    }
}

/// Whether the disposition `bits` carry `flag`.
pub open spec fn has_flag(bits: u32, flag: u32) -> bool {
    bits & flag != 0
}

/// Tests a disposition flag.
pub fn disposition_has(bits: u32, flag: u32) -> (r: bool)
    ensures
        r == has_flag(bits, flag),
{
    bits & flag != 0
}

/// One elementary stream as read from an opened container: its declared
/// fields, and the outcome of building a decoder from its parameters.
#[derive(Clone, Copy, Debug, PartialEq, Eq, Structural)]
pub struct RawStream {
    pub index: usize,
    pub medium: i32,
    pub time_base: Rational,
    pub start_time: i64,
    pub duration: i64,
    pub frames: i64,
    pub disposition: u32,
    pub discard: i32,
    pub rate: Rational,
    pub decoded: Decoded,
}

/// The descriptive fields of one elementary stream. `start_time` and
/// `duration` keep the container's unknown marker as it was read.
#[derive(Clone, Copy, Debug, PartialEq, Eq, Structural)]
pub struct StreamDescriptor {
    pub index: usize,
    pub kind: MediaKind,
    pub time_base: Rational,
    pub start_time: i64,
    pub duration: i64,
    pub frames: i64,
    pub disposition: u32,
    pub discard: i32,
    pub rate: Rational,
}

/// The descriptor of a raw stream: every field passed through unchanged, the
/// medium code replaced by its category.
pub open spec fn describe(s: RawStream) -> StreamDescriptor {
    StreamDescriptor {
        index: s.index,
        kind: kind_of_medium(s.medium),
        time_base: s.time_base,
        start_time: s.start_time,
        duration: s.duration,
        frames: s.frames,
        disposition: s.disposition,
        discard: s.discard,
        rate: s.rate,
    }
}

/// The descriptors of a container's streams, in the order they were read.
pub open spec fn catalog_of(raw: Seq<RawStream>) -> Seq<StreamDescriptor> {
    raw.map_values(|s: RawStream| describe(s))
}

/// Whether stream indices ascend strictly along `d`.
pub open spec fn ascending(d: Seq<StreamDescriptor>) -> bool {
    forall|i: int, j: int| 0 <= i < j < d.len() ==> d[i].index < d[j].index
}

/// Whether each stream of `raw` carries its own position as index, as a
/// container lists its streams natively.
pub open spec fn native_order(raw: Seq<RawStream>) -> bool {
    forall|i: int| 0 <= i < raw.len() ==> raw[i].index == i
}

/// Describes one raw stream.
pub fn describe_stream(s: &RawStream) -> (r: StreamDescriptor)
    ensures
        r == describe(*s),
{
    StreamDescriptor {
        index: s.index,
        kind: media_kind(s.medium),
        time_base: s.time_base,
        start_time: s.start_time,
        duration: s.duration,
        frames: s.frames,
        disposition: s.disposition,
        discard: s.discard,
        rate: s.rate,
    }
}

/// Lists the descriptors of a container's streams, one per raw stream, in
/// the container's order.
pub fn streams(raw: &Vec<RawStream>) -> (r: Vec<StreamDescriptor>)
    ensures
        r@ == catalog_of(raw@),
        native_order(raw@) ==> ascending(r@),
{
    let mut out: Vec<StreamDescriptor> = Vec::new();
    let mut i: usize = 0;
    while i < raw.len()
        invariant
            i <= raw.len(),
            out@ == catalog_of(raw@.take(i as int)),
        decreases raw.len() - i,
    {
        out.push(describe_stream(&raw[i]));
        i = i + 1;
        assert(raw@.take(i as int).drop_last() == raw@.take(i - 1 as int));
    }
    assert(raw@.take(i as int) == raw@);
    out
}

/// Listing the streams of the same container twice gives the same sequence,
/// and a container read in its native order gives them by ascending index.
pub proof fn lemma_streams_repeatable(raw: Seq<RawStream>, again: Seq<RawStream>)
    requires
        again == raw,
    ensures
        catalog_of(again) == catalog_of(raw),
        catalog_of(raw).len() == raw.len(),
        native_order(raw) ==> ascending(catalog_of(raw)),
{
}

} // verus!
