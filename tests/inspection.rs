use media_inspect::catalog::{
    disposition_has, media_kind, streams, MediaKind, RawStream, DISPOSITION_ATTACHED_PIC,
    DISPOSITION_DEFAULT, DISPOSITION_FORCED, MEDIUM_AUDIO, MEDIUM_DATA, MEDIUM_SUBTITLE,
    MEDIUM_VIDEO,
};
use media_inspect::codec::{resolve, AudioParams, CodecParameters, Decoded, StreamEntry, VideoParams};
use media_inspect::error::{
    classify_open_error, ErrorKind, OpenFailure, ERR_DEMUXER_NOT_FOUND, ERR_END_OF_FILE,
    ERR_INVALID_DATA, ERR_PROTOCOL_NOT_FOUND,
};
use media_inspect::metadata::merge_metadata;
use media_inspect::report::{build_report, inspect, resolve_streams, OpenedContainer};
use media_inspect::select::{prefers_stream, select_best};
use media_inspect::startup::Startup;
use media_inspect::timing::{
    container_duration, stream_duration, Rational, Span, NO_TIMESTAMP, TICKS_PER_SECOND,
};

fn video(width: u32, height: u32, bit_rate: u64) -> VideoParams {
    VideoParams {
        bit_rate,
        max_bit_rate: 0,
        delay: 0,
        width,
        height,
        pixel_format: 0,
        has_b_frames: false,
        aspect_ratio: Rational { num: 1, den: 1 },
        color_space: 2,
        color_range: 0,
        color_primaries: 2,
        transfer_characteristic: 2,
        chroma_location: 0,
        references: 1,
        intra_dc_precision: 0,
    }
}

fn audio(channels: u16, sample_rate: u32) -> AudioParams {
    AudioParams {
        bit_rate: 128000,
        max_bit_rate: 0,
        delay: 0,
        sample_rate,
        channels,
        sample_format: 8,
        frames: 1024,
        align: 0,
        channel_layout: 3,
    }
}

fn raw(index: usize, medium: i32, disposition: u32, decoded: Decoded) -> RawStream {
    RawStream {
        index,
        medium,
        time_base: Rational { num: 1, den: 90000 },
        start_time: 0,
        duration: 900000,
        frames: 250,
        disposition,
        discard: 0,
        rate: Rational { num: 25, den: 1 },
        decoded,
    }
}

fn container(streams: Vec<RawStream>) -> OpenedContainer {
    OpenedContainer { metadata: Vec::new(), duration: 10_000_000, streams }
}

fn seconds(span: Span) -> f64 {
    match span {
        Span::Seconds { num, den } => num as f64 / den as f64,
        Span::Unknown => panic!("unknown span"),
    }
}

#[test]
fn default_video_stream_wins_over_resolution() {
    let c = container(vec![
        raw(0, MEDIUM_VIDEO, 0, Decoded::Video(video(640, 360, 800_000))),
        raw(1, MEDIUM_VIDEO, DISPOSITION_DEFAULT, Decoded::Video(video(1920, 1080, 4_000_000))),
    ]);
    let report = build_report(c);
    assert_eq!(report.best_video, Some(1));

    let c = container(vec![
        raw(0, MEDIUM_VIDEO, DISPOSITION_DEFAULT, Decoded::Video(video(640, 360, 800_000))),
        raw(1, MEDIUM_VIDEO, 0, Decoded::Video(video(1920, 1080, 4_000_000))),
    ]);
    assert_eq!(build_report(c).best_video, Some(0));
}

#[test]
fn stereo_beats_mono_at_higher_rate() {
    let c = container(vec![
        raw(0, MEDIUM_AUDIO, 0, Decoded::Audio(audio(1, 48000))),
        raw(1, MEDIUM_AUDIO, 0, Decoded::Audio(audio(2, 44100))),
    ]);
    let report = build_report(c);
    assert_eq!(report.best_audio, Some(1));
    assert_eq!(report.best_video, None);
}

#[test]
fn non_media_file_is_unrecognized() {
    let failure = OpenFailure {
        code: ERR_INVALID_DATA,
        message: "Invalid data found when processing input".to_string(),
    };
    let r = inspect(Err(failure));
    match r {
        Err(e) => {
            assert_eq!(e.kind, ErrorKind::UnrecognizedFormat);
            assert_eq!(e.message, "Invalid data found when processing input");
        }
        Ok(_) => panic!("a report for a file that did not open"),
    }
}

#[test]
fn corrupted_video_parameters_leave_other_streams() {
    let c = container(vec![
        raw(0, MEDIUM_VIDEO, 0, Decoded::Unavailable),
        raw(1, MEDIUM_AUDIO, 0, Decoded::Audio(audio(2, 48000))),
        raw(2, MEDIUM_SUBTITLE, 0, Decoded::Unavailable),
    ]);
    let report = inspect(Ok(c)).unwrap();
    assert_eq!(report.streams.len(), 3);
    assert_eq!(report.streams[0].descriptor.kind, MediaKind::Video);
    assert_eq!(report.streams[0].params, None);
    assert_eq!(report.streams[1].params, Some(CodecParameters::Audio(audio(2, 48000))));
    assert_eq!(report.streams[2].params, None);
    assert_eq!(report.best_video, Some(0));
    assert_eq!(report.best_audio, Some(1));
    assert_eq!(report.best_subtitle, Some(2));
}

#[test]
fn empty_container_has_no_selection() {
    let report = inspect(Ok(container(Vec::new()))).unwrap();
    assert!(report.streams.is_empty());
    assert_eq!(report.best_video, None);
    assert_eq!(report.best_audio, None);
    assert_eq!(report.best_subtitle, None);
    assert!((seconds(report.duration) - 10.0).abs() < 1e-6);
}

#[test]
fn equal_candidates_pick_lowest_index_in_any_order() {
    let a = raw(3, MEDIUM_AUDIO, 0, Decoded::Audio(audio(2, 48000)));
    let b = raw(1, MEDIUM_AUDIO, 0, Decoded::Audio(audio(2, 48000)));
    let c = raw(2, MEDIUM_AUDIO, 0, Decoded::Audio(audio(1, 96000)));
    let forward = resolve_streams(&vec![a, b, c]);
    let backward = resolve_streams(&vec![c, b, a]);
    assert_eq!(select_best(&forward, MediaKind::Audio), Some(1));
    assert_eq!(select_best(&backward, MediaKind::Audio), Some(1));
    assert_eq!(select_best(&forward, MediaKind::Audio), select_best(&forward, MediaKind::Audio));
}

#[test]
fn richer_video_wins_then_bit_rate() {
    let s = resolve_streams(&vec![
        raw(0, MEDIUM_VIDEO, 0, Decoded::Video(video(1280, 720, 9_000_000))),
        raw(1, MEDIUM_VIDEO, 0, Decoded::Video(video(1920, 1080, 2_000_000))),
        raw(2, MEDIUM_VIDEO, 0, Decoded::Video(video(1920, 1080, 3_000_000))),
    ]);
    assert_eq!(select_best(&s, MediaKind::Video), Some(2));
    assert!(prefers_stream(&s[2], &s[1]));
    assert!(!prefers_stream(&s[1], &s[2]));
}

#[test]
fn subtitle_prefers_unforced_stream() {
    let s = resolve_streams(&vec![
        raw(0, MEDIUM_SUBTITLE, DISPOSITION_FORCED, Decoded::Unavailable),
        raw(1, MEDIUM_SUBTITLE, DISPOSITION_ATTACHED_PIC, Decoded::Unavailable),
        raw(2, MEDIUM_SUBTITLE, 0, Decoded::Unavailable),
    ]);
    assert_eq!(select_best(&s, MediaKind::Subtitle), Some(2));
    assert_eq!(select_best(&s, MediaKind::Data), None);
}

#[test]
fn other_categories_resolve_to_nothing() {
    let v = Decoded::Video(video(320, 240, 1000));
    let a = Decoded::Audio(audio(2, 8000));
    for kind in [MediaKind::Subtitle, MediaKind::Data, MediaKind::Unknown] {
        assert_eq!(resolve(kind, v), None);
        assert_eq!(resolve(kind, a), None);
        assert_eq!(resolve(kind, Decoded::Unavailable), None);
    }
    assert_eq!(resolve(MediaKind::Video, a), None);
    assert_eq!(resolve(MediaKind::Audio, v), None);
    assert_eq!(resolve(MediaKind::Video, v), Some(CodecParameters::Video(video(320, 240, 1000))));
}

#[test]
fn streams_listing_is_repeatable_and_ordered() {
    let input = vec![
        raw(0, MEDIUM_VIDEO, DISPOSITION_DEFAULT, Decoded::Unavailable),
        raw(1, MEDIUM_AUDIO, 0, Decoded::Unavailable),
        raw(2, MEDIUM_DATA, 0, Decoded::Unavailable),
        raw(3, 4, 0, Decoded::Unavailable),
    ];
    let first = streams(&input);
    let second = streams(&input);
    assert_eq!(first, second);
    let kinds: Vec<MediaKind> = first.iter().map(|d| d.kind).collect();
    assert_eq!(
        kinds,
        vec![MediaKind::Video, MediaKind::Audio, MediaKind::Data, MediaKind::Unknown]
    );
    for (i, d) in first.iter().enumerate() {
        assert_eq!(d.index, i);
        assert_eq!(d.duration, 900000);
    }
}

#[test]
fn medium_codes_map_to_categories() {
    assert_eq!(media_kind(MEDIUM_VIDEO), MediaKind::Video);
    assert_eq!(media_kind(MEDIUM_AUDIO), MediaKind::Audio);
    assert_eq!(media_kind(MEDIUM_DATA), MediaKind::Data);
    assert_eq!(media_kind(MEDIUM_SUBTITLE), MediaKind::Subtitle);
    assert_eq!(media_kind(-1), MediaKind::Unknown);
    assert_eq!(media_kind(4), MediaKind::Unknown);
    assert!(disposition_has(0x41, DISPOSITION_FORCED));
    assert!(!disposition_has(0x41, DISPOSITION_ATTACHED_PIC));
}

#[test]
fn container_duration_is_ticks_over_time_base() {
    let d = container_duration(12_345_678);
    assert_eq!(d, Span::Seconds { num: 12_345_678, den: TICKS_PER_SECOND });
    assert!((seconds(d) - 12.345678).abs() < 1e-6);
    assert_eq!(container_duration(0), Span::Seconds { num: 0, den: TICKS_PER_SECOND });
    assert_eq!(container_duration(NO_TIMESTAMP), Span::Unknown);
}

#[test]
fn stream_duration_uses_time_base() {
    let d = stream_duration(900000, Rational { num: 1, den: 90000 });
    assert!((seconds(d) - 10.0).abs() < 1e-6);
    assert_eq!(
        stream_duration(30, Rational { num: 1, den: -2 }),
        Span::Seconds { num: -30, den: 2 }
    );
    assert_eq!(stream_duration(30, Rational { num: 1, den: 0 }), Span::Unknown);
    assert_eq!(stream_duration(NO_TIMESTAMP, Rational { num: 1, den: 1000 }), Span::Unknown);
    assert_eq!(
        stream_duration(i64::MAX, Rational { num: i32::MIN, den: 1 }),
        Span::Seconds { num: i64::MAX as i128 * i32::MIN as i128, den: 1 }
    );
    assert!(Rational { num: 16, den: 9 }.is_defined());
    assert!(!Rational { num: 0, den: 0 }.is_defined());
}

#[test]
fn metadata_later_keys_overwrite_in_place() {
    let entries = vec![
        ("title".to_string(), "first".to_string()),
        ("encoder".to_string(), "lavf".to_string()),
        ("Title".to_string(), "other case".to_string()),
        ("title".to_string(), "second".to_string()),
    ];
    let merged = merge_metadata(entries);
    assert_eq!(
        merged,
        vec![
            ("title".to_string(), "second".to_string()),
            ("encoder".to_string(), "lavf".to_string()),
            ("Title".to_string(), "other case".to_string()),
        ]
    );
    assert!(merge_metadata(Vec::new()).is_empty());
}

#[test]
fn report_carries_metadata_and_unknown_duration() {
    let c = OpenedContainer {
        metadata: vec![
            ("major_brand".to_string(), "isom".to_string()),
            ("major_brand".to_string(), "mp42".to_string()),
        ],
        duration: NO_TIMESTAMP,
        streams: Vec::new(),
    };
    let report = build_report(c);
    assert_eq!(report.metadata, vec![("major_brand".to_string(), "mp42".to_string())]);
    assert_eq!(report.duration, Span::Unknown);
}

#[test]
fn open_failures_are_classified() {
    let kind = |code: i32| {
        classify_open_error(OpenFailure { code, message: "m".to_string() }).kind
    };
    assert_eq!(kind(ERR_INVALID_DATA), ErrorKind::UnrecognizedFormat);
    assert_eq!(kind(ERR_DEMUXER_NOT_FOUND), ErrorKind::UnrecognizedFormat);
    assert_eq!(kind(ERR_END_OF_FILE), ErrorKind::UnrecognizedFormat);
    assert_eq!(kind(-2), ErrorKind::IoFailure);
    assert_eq!(kind(-13), ErrorKind::IoFailure);
    assert_eq!(kind(ERR_PROTOCOL_NOT_FOUND), ErrorKind::IoFailure);
    assert_eq!(kind(-0x21475542), ErrorKind::Internal);
    assert_eq!(ERR_INVALID_DATA, -1094995529);
    let e = classify_open_error(OpenFailure { code: -2, message: "No such file".to_string() });
    assert_eq!(e.message, "No such file");
}

#[test]
fn library_setup_runs_once() {
    let mut s = Startup::new();
    assert!(s.begin_inspection());
    assert!(!s.begin_inspection());
    assert!(!s.begin_inspection());
}
