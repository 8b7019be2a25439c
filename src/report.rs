use vstd::prelude::*;

use crate::catalog::{describe, kind_of_medium, streams, MediaKind, RawStream};
use crate::codec::{resolve, resolved, StreamEntry};
use crate::error::{classify_open_error, open_error_kind, InspectionError, OpenFailure};
use crate::metadata::{entries_view, keys_unique, merge_metadata, merged};
use crate::select::{select_best, selects};
use crate::timing::{container_duration, container_span, Span};

verus! {

/// What was read from a successfully opened container: its metadata
/// entries in order, its duration in ticks of a millionth of a second, and
/// its streams in native order.
#[derive(Clone, Debug, PartialEq, Eq)]
pub struct OpenedContainer {
    pub metadata: Vec<(String, String)>,
    pub duration: i64,
    pub streams: Vec<RawStream>,
}

/// The result of inspecting a container.
#[derive(Clone, Debug, PartialEq, Eq)]
pub struct InspectionReport {
    pub metadata: Vec<(String, String)>,
    pub duration: Span,
    pub streams: Vec<StreamEntry>,
    pub best_video: Option<usize>,
    pub best_audio: Option<usize>,
    pub best_subtitle: Option<usize>,
}

/// The report entry of a raw stream: its descriptor and its resolved
/// parameters.
pub open spec fn entry_of(s: RawStream) -> StreamEntry {
    StreamEntry { descriptor: describe(s), params: resolved(kind_of_medium(s.medium), s.decoded) }
}

/// The report entries of a container's streams, in order.
pub open spec fn entries_of(raw: Seq<RawStream>) -> Seq<StreamEntry> {
    raw.map_values(|s: RawStream| entry_of(s))
}

/// Whether `r` is the report of container `c`.
pub open spec fn reports(c: OpenedContainer, r: InspectionReport) -> bool {
    &&& entries_view(r.metadata@) == merged(entries_view(c.metadata@))
    &&& r.duration == container_span(c.duration)
    &&& r.streams@ == entries_of(c.streams@)
    &&& selects(r.streams@, MediaKind::Video, r.best_video)
    &&& selects(r.streams@, MediaKind::Audio, r.best_audio)
    &&& selects(r.streams@, MediaKind::Subtitle, r.best_subtitle)
}

/// Pairs each stream of a container with its resolved codec parameters.
pub fn resolve_streams(raw: &Vec<RawStream>) -> (r: Vec<StreamEntry>)
    ensures
        r@ == entries_of(raw@),
{
    let descriptors = streams(raw);
    let mut out: Vec<StreamEntry> = Vec::new();
    let mut i: usize = 0;
    while i < raw.len()
        invariant
            i <= raw.len(),
            descriptors@ == crate::catalog::catalog_of(raw@),
            out@ == entries_of(raw@.take(i as int)),
        decreases raw.len() - i,
    {
        let d = descriptors[i];
        out.push(StreamEntry { descriptor: d, params: resolve(d.kind, raw[i].decoded) });
        i = i + 1;
        assert(raw@.take(i as int).drop_last() == raw@.take(i - 1 as int));
    }
    assert(raw@.take(i as int) == raw@);
    out
}

/// Builds the report of an opened container: merged metadata, duration in
/// seconds, every stream with its parameters, and the best stream of each of
/// video, audio and subtitles.
pub fn build_report(container: OpenedContainer) -> (r: InspectionReport)
    ensures
        reports(container, r),
        keys_unique(entries_view(r.metadata@)),
{
    let entries = resolve_streams(&container.streams);
    let best_video = select_best(&entries, MediaKind::Video);
    let best_audio = select_best(&entries, MediaKind::Audio);
    let best_subtitle = select_best(&entries, MediaKind::Subtitle);
    let duration = container_duration(container.duration);
    let metadata = merge_metadata(container.metadata);
    InspectionReport {
        metadata,
        duration,
        streams: entries,
        best_video,
        best_audio,
        best_subtitle,
    }
}

/// Inspects a container from the outcome of opening it: a report when it
/// opened, else the classified failure with its diagnostic and no report.
pub fn inspect(opened: Result<OpenedContainer, OpenFailure>) -> (r: Result<
    InspectionReport,
    InspectionError,
>)
    ensures
        opened is Ok <==> r is Ok,
        opened matches Ok(c) ==> r matches Ok(report) && reports(c, report),
        opened matches Err(f) ==> r matches Err(e) && e.kind == open_error_kind(f.code)
            && e.message@ == f.message@,
{
    match opened {
        Ok(c) => Ok(build_report(c)),
        Err(f) => Err(classify_open_error(f)),
    }
}

/// A container without streams gives a report with no streams and no
/// selection in any category.
pub proof fn lemma_empty_container(c: OpenedContainer, r: InspectionReport)
    requires
        c.streams@.len() == 0,
        reports(c, r),
    ensures
        r.streams@.len() == 0,
        r.best_video is None,
        r.best_audio is None,
        r.best_subtitle is None,
{
}

} // verus!
