use dmpd::{
    describe_representation, format_duration, get_period_height, get_period_width, ms_to_pixels,
    parse_period_duration_ms, parse_period_start_ms, parse_segment_template, render_duration_ms, AdaptationSet,
    Color, ContentType, DrawError, Expanded, ExpandedAdaptationSet, ExpandedMpd, ExpandedPeriod, ExpandedRepresentation,
    ExpandedSegmentTimeline, ExpandedSegmentTimelineSegment, ExpandedSegments, Manifest,
    ParseError, Period, Representation, SegmentTemplate, TimeSpan, TimelineEntry,
};

fn entry(t: Option<u64>, d: u64, r: Option<i64>) -> TimelineEntry {
    TimelineEntry { t, d, r }
}

fn template(timescale: u64, entries: Vec<TimelineEntry>, offset: Option<u64>) -> SegmentTemplate {
    SegmentTemplate {
        timescale: Some(timescale),
        segment_timeline: Some(entries),
        media: Some("seg-$Time$.m4s".to_string()),
        presentation_time_offset: offset,
    }
}

fn audio_rep(id: &str) -> Representation {
    Representation {
        id: Some(id.to_string()),
        mime_type: None,
        codecs: Some("mp4a.40.2".to_string()),
        audio_sampling_rate: None,
        frame_rate: None,
        width: None,
        height: None,
        bandwidth: None,
        segment_template: None,
    }
}

fn video_rep(id: &str) -> Representation {
    Representation {
        id: Some(id.to_string()),
        mime_type: None,
        codecs: Some("avc1.64001f".to_string()),
        audio_sampling_rate: None,
        frame_rate: None,
        width: Some(1280),
        height: Some(720),
        bandwidth: Some(3000000),
        segment_template: None,
    }
}

fn audio_set(id: &str, st: Option<SegmentTemplate>, reps: Vec<Representation>) -> AdaptationSet {
    AdaptationSet {
        id: Some(id.to_string()),
        content_type: Some("audio".to_string()),
        mime_type: Some("audio/mp4".to_string()),
        codecs: None,
        audio_sampling_rate: Some("48000".to_string()),
        frame_rate: None,
        segment_template: st,
        representations: reps,
    }
}

fn video_set(id: &str, st: Option<SegmentTemplate>, reps: Vec<Representation>) -> AdaptationSet {
    AdaptationSet {
        id: Some(id.to_string()),
        content_type: Some("video".to_string()),
        mime_type: Some("video/mp4".to_string()),
        codecs: None,
        audio_sampling_rate: None,
        frame_rate: Some("25".to_string()),
        segment_template: st,
        representations: reps,
    }
}

fn period(id: Option<&str>, start: Option<TimeSpan>, sets: Vec<AdaptationSet>) -> Period {
    Period {
        id: id.map(|s| s.to_string()),
        start,
        duration: None,
        segment_template: None,
        adaptations: sets,
    }
}

fn single_period(st: SegmentTemplate) -> Manifest {
    Manifest { periods: vec![period(Some("p0"), None, vec![audio_set("a0", Some(st), vec![audio_rep("r0")])])] }
}

fn timeline_of(mpd: &ExpandedMpd) -> &ExpandedSegmentTimeline {
    match &mpd.periods[0].adaptation_sets[0].representations[0].segments {
        ExpandedSegments::SegmentTemplate { segment_timeline } => segment_timeline,
        ExpandedSegments::SegmentList => panic!("unexpected segment list"),
    }
}

#[test]
fn repeat_two_gives_one_record_of_three_segments() {
    let mpd = ExpandedMpd::new(&single_period(template(4, vec![entry(None, 4, Some(2))], None))).unwrap();
    let segs = &timeline_of(&mpd).segments;
    assert_eq!(segs.len(), 1);
    assert_eq!(segs[0].start_ms, 0);
    assert_eq!(segs[0].segment_duration_ms, 1000);
    assert_eq!(segs[0].segment_count, 3);
    assert_eq!(segs[0].duration_ms, 3000);
    assert_eq!(segs[0].end_ms, 3000);
    assert_eq!(segs[0].presentation_time_offset, 0);
}

#[test]
fn half_second_units_are_exact() {
    let mpd = ExpandedMpd::new(&single_period(template(1000, vec![entry(None, 500, None)], None))).unwrap();
    let segs = &timeline_of(&mpd).segments;
    assert_eq!(segs[0].segment_duration_ms, 500);
    assert_eq!(segs[0].end_ms, 500);
}

#[test]
fn unit_duration_is_truncated() {
    let mpd = ExpandedMpd::new(&single_period(template(3, vec![entry(None, 1, None)], None))).unwrap();
    let segs = &timeline_of(&mpd).segments;
    assert_eq!(segs[0].segment_duration_ms, 333);
    assert_eq!(segs[0].end_ms, 333);
}

#[test]
fn text_content_type_is_rejected_naming_the_set() {
    let mut set = audio_set("subs", Some(template(1000, vec![entry(None, 1000, None)], None)), vec![audio_rep("r0")]);
    set.content_type = Some("text".to_string());
    let m = Manifest { periods: vec![period(Some("p0"), None, vec![set])] };
    let e = ExpandedMpd::new(&m).unwrap_err();
    assert_eq!(e.kind, ParseError::AdaptationSetWithoutContentType);
    assert_eq!(e.id, "subs");
}

#[test]
fn missing_content_type_is_rejected() {
    let mut set = audio_set("a0", Some(template(1000, vec![entry(None, 1000, None)], None)), vec![audio_rep("r0")]);
    set.content_type = None;
    let m = Manifest { periods: vec![period(Some("p0"), None, vec![set])] };
    assert_eq!(ExpandedMpd::new(&m).unwrap_err().kind, ParseError::AdaptationSetWithoutContentType);
}

#[test]
fn video_without_width_is_its_own_error() {
    let mut rep = video_rep("v0");
    rep.width = None;
    let set = video_set("vid", Some(template(1000, vec![entry(None, 1000, None)], None)), vec![rep]);
    let m = Manifest { periods: vec![period(Some("p0"), None, vec![set])] };
    let e = ExpandedMpd::new(&m).unwrap_err();
    assert_eq!(e.kind, ParseError::RepresentationWithoutWidth);
    assert_ne!(e.kind, ParseError::CannotInferRepresentationAudioSamplingRate);
    assert_eq!(e.id, "v0");
}

#[test]
fn audio_without_sampling_rate_is_rejected() {
    let mut set = audio_set("a0", Some(template(1000, vec![entry(None, 1000, None)], None)), vec![audio_rep("r0")]);
    set.audio_sampling_rate = None;
    let m = Manifest { periods: vec![period(Some("p0"), None, vec![set])] };
    assert_eq!(ExpandedMpd::new(&m).unwrap_err().kind, ParseError::CannotInferRepresentationAudioSamplingRate);
}

#[test]
fn video_without_height_bandwidth_or_frame_rate_is_rejected() {
    let st = Some(template(1000, vec![entry(None, 1000, None)], None));
    let mut rep = video_rep("v0");
    rep.height = None;
    assert_eq!(
        describe_representation(&rep, &video_set("vid", st.clone(), vec![])).unwrap_err(),
        ParseError::RepresentationWithoutHeight
    );
    let mut rep = video_rep("v0");
    rep.bandwidth = None;
    assert_eq!(
        describe_representation(&rep, &video_set("vid", st.clone(), vec![])).unwrap_err(),
        ParseError::RepresentationWithoutBandwidth
    );
    let mut set = video_set("vid", st, vec![]);
    set.frame_rate = None;
    assert_eq!(describe_representation(&video_rep("v0"), &set).unwrap_err(), ParseError::CannotInferRepresentationFrameRate);
}

#[test]
fn missing_mime_type_and_codecs_are_rejected() {
    let mut set = audio_set("a0", None, vec![]);
    set.mime_type = None;
    assert_eq!(describe_representation(&audio_rep("r0"), &set).unwrap_err(), ParseError::CannotInferRepresentationMimeType);
    let set = audio_set("a0", None, vec![]);
    let mut rep = audio_rep("r0");
    rep.codecs = None;
    assert_eq!(describe_representation(&rep, &set).unwrap_err(), ParseError::CannotInferRepresentationCodecs);
    let mut set = audio_set("a0", None, vec![]);
    set.content_type = Some("image".to_string());
    assert_eq!(describe_representation(&audio_rep("r0"), &set).unwrap_err(), ParseError::UnmappedRepresentationContentType);
}

#[test]
fn descriptions_resolve_the_cascade() {
    let set = audio_set("a0", None, vec![]);
    assert_eq!(describe_representation(&audio_rep("r0"), &set).unwrap(), "audio/mp4 mp4a.40.2 48000Hz");
    let mut rep = audio_rep("r0");
    rep.mime_type = Some("audio/webm".to_string());
    rep.audio_sampling_rate = Some("44100".to_string());
    assert_eq!(describe_representation(&rep, &set).unwrap(), "audio/webm mp4a.40.2 44100Hz");
    let vset = video_set("v", None, vec![]);
    assert_eq!(describe_representation(&video_rep("v0"), &vset).unwrap(), "video/mp4 avc1.64001f 1280x720 25fps 3000000bps");
}

#[test]
fn adaptation_set_codecs_apply_where_representation_omits_them() {
    let mut set = audio_set("a0", None, vec![]);
    set.codecs = Some("opus".to_string());
    let mut rep = audio_rep("r0");
    rep.codecs = None;
    assert_eq!(describe_representation(&rep, &set).unwrap(), "audio/mp4 opus 48000Hz");
    assert_eq!(describe_representation(&audio_rep("r1"), &set).unwrap(), "audio/mp4 mp4a.40.2 48000Hz");
}

#[test]
fn periods_without_start_follow_the_previous_computed_end() {
    let st = template(1000, vec![entry(None, 2000, Some(1))], None);
    let first = period(Some("p0"), None, vec![audio_set("a0", Some(st.clone()), vec![audio_rep("r0")])]);
    let second = period(Some("p1"), None, vec![audio_set("a1", Some(st), vec![audio_rep("r1")])]);
    let mpd = ExpandedMpd::new(&Manifest { periods: vec![first, second] }).unwrap();
    assert_eq!(mpd.periods[0].period_start_ms, 0);
    assert_eq!(mpd.periods[0].end_ms(), Ok(4000));
    assert_eq!(mpd.periods[1].period_start_ms, 4000);
    assert_eq!(mpd.periods[1].start_ms(), Ok(4000));
    assert_eq!(mpd.periods[1].end_ms(), Ok(8000));
    assert_eq!(mpd.start_ms(), Ok(0));
    assert_eq!(mpd.end_ms(), Ok(8000));
}

#[test]
fn explicit_period_start_is_used_and_gap_is_measured() {
    let st = template(1000, vec![entry(Some(3000), 1000, None)], None);
    let p = period(Some("p0"), Some(TimeSpan { secs: 2, nanos: 0 }), vec![audio_set("a0", Some(st), vec![audio_rep("r0")])]);
    let mpd = ExpandedMpd::new(&Manifest { periods: vec![p] }).unwrap();
    let p = &mpd.periods[0];
    assert_eq!(p.period_start_ms, 2000);
    assert_eq!(p.start_ms(), Ok(5000));
    assert_eq!(p.gap_start(), Ok(0));
    assert_eq!(p.gap_end(), Ok(5000));
    assert_eq!(p.gap_ms(), Ok(3000));
    assert_eq!(get_period_height(p), Some(40 + 50));
}

#[test]
fn segments_before_the_declared_start_give_no_gap() {
    let seg = ExpandedSegmentTimelineSegment {
        start_ms: 0,
        end_ms: 1000,
        duration_ms: 1000,
        segment_duration_ms: 1000,
        segment_count: 1,
        presentation_time_offset: 0,
    };
    let p = ExpandedPeriod {
        adaptation_sets: vec![ExpandedAdaptationSet {
            content_type: ContentType::Audio,
            representations: vec![ExpandedRepresentation {
                description: "audio/mp4 mp4a.40.2 48000Hz".to_string(),
                segments: ExpandedSegments::SegmentTemplate {
                    segment_timeline: ExpandedSegmentTimeline { segments: vec![seg] },
                },
            }],
        }],
        period_start_ms: 5,
        period_duration_ms: None,
        id: "p0".to_string(),
    };
    assert_eq!(p.gap_start(), Ok(0));
    assert_eq!(p.gap_end(), Ok(0));
    assert_eq!(p.gap_ms(), Ok(0));
    let empty = ExpandedPeriod { adaptation_sets: vec![], period_start_ms: 5, period_duration_ms: None, id: "p1".to_string() };
    assert_eq!(empty.gap_start(), Err(ParseError::PeriodWithoutAdaptationSets));
    assert_eq!(empty.gap_end(), Err(ParseError::PeriodWithoutAdaptationSets));
}

#[test]
fn early_segments_give_no_gap() {
    let st = template(1000, vec![entry(None, 1000, None)], None);
    let p = period(Some("p0"), Some(TimeSpan { secs: 2, nanos: 0 }), vec![audio_set("a0", Some(st), vec![audio_rep("r0")])]);
    let mpd = ExpandedMpd::new(&Manifest { periods: vec![p] }).unwrap();
    let p = &mpd.periods[0];
    assert_eq!(p.start_ms(), Ok(2000));
    assert_eq!(p.gap_ms(), Ok(0));
    assert_eq!(p.gap_end(), Ok(2000));
}

#[test]
fn implicit_entries_continue_where_the_previous_ends() {
    let st = template(1000, vec![entry(Some(0), 2000, Some(1)), entry(None, 1500, None), entry(None, 500, Some(3))], None);
    let mpd = ExpandedMpd::new(&single_period(st)).unwrap();
    let segs = &timeline_of(&mpd).segments;
    assert_eq!(segs.len(), 3);
    assert_eq!(segs[0].end_ms, segs[1].start_ms);
    assert_eq!(segs[1].end_ms, segs[2].start_ms);
    assert!(segs[0].start_ms <= segs[1].start_ms && segs[1].start_ms <= segs[2].start_ms);
    assert_eq!(segs[2].end_ms, 7500);
}

#[test]
fn truncated_units_leave_the_next_start_exact() {
    let st = template(3, vec![entry(None, 1, Some(2)), entry(None, 1, None)], None);
    let mpd = ExpandedMpd::new(&single_period(st)).unwrap();
    let segs = &timeline_of(&mpd).segments;
    assert_eq!(segs[0].end_ms, 999);
    assert_eq!(segs[1].start_ms, 1000);
}

#[test]
fn explicit_time_resets_the_running_time() {
    let st = template(1000, vec![entry(None, 1000, None), entry(Some(5000), 1000, None), entry(None, 1000, None)], Some(0));
    let mpd = ExpandedMpd::new(&single_period(st)).unwrap();
    let segs = &timeline_of(&mpd).segments;
    assert_eq!(segs[1].start_ms, 5000);
    assert_eq!(segs[2].start_ms, 6000);
}

#[test]
fn presentation_time_offset_shifts_starts() {
    let st = template(90000, vec![entry(Some(180000), 180000, None)], Some(90000));
    let mpd = ExpandedMpd::new(&single_period(st)).unwrap();
    let segs = &timeline_of(&mpd).segments;
    assert_eq!(segs[0].start_ms, 1000);
    assert_eq!(segs[0].end_ms, 3000);
    assert_eq!(segs[0].presentation_time_offset, 90000);
}

#[test]
fn time_before_offset_is_an_error() {
    let st = template(1000, vec![entry(Some(10), 1000, None)], Some(20));
    assert_eq!(ExpandedMpd::new(&single_period(st)).unwrap_err().kind, ParseError::SegmentTimeBeforePresentationTimeOffset);
}

#[test]
fn expansion_is_repeatable() {
    let st = template(1000, vec![entry(Some(0), 2000, Some(4)), entry(None, 1000, None)], None);
    let m = Manifest {
        periods: vec![
            period(Some("p0"), None, vec![audio_set("a0", Some(st.clone()), vec![audio_rep("r0")])]),
            period(None, None, vec![video_set("v0", Some(st), vec![video_rep("v0"), video_rep("v1")])]),
        ],
    };
    let a = ExpandedMpd::new(&m).unwrap();
    let b = ExpandedMpd::new(&m).unwrap();
    assert_eq!(format!("{:?}", a), format!("{:?}", b));
    assert_eq!(a.periods[1].id, "No ID");
    assert_eq!(a.periods[1].adaptation_sets[0].content_type, ContentType::Video);
}

#[test]
fn template_fields_cascade_from_representation_to_period() {
    let rep_st = Some(SegmentTemplate { timescale: None, segment_timeline: None, media: None, presentation_time_offset: Some(1000) });
    let set_st = Some(SegmentTemplate { timescale: Some(1000), segment_timeline: None, media: Some("m".to_string()), presentation_time_offset: Some(5) });
    let per_st = Some(template(10, vec![entry(Some(2000), 1000, None)], None));
    let segs = parse_segment_template(&rep_st, &set_st, &per_st, 0).unwrap();
    match segs {
        ExpandedSegments::SegmentTemplate { segment_timeline } => {
            assert_eq!(segment_timeline.segments[0].start_ms, 1000);
            assert_eq!(segment_timeline.segments[0].segment_duration_ms, 1000);
            assert_eq!(segment_timeline.segments[0].presentation_time_offset, 1000);
        }
        ExpandedSegments::SegmentList => panic!("unexpected segment list"),
    }
}

#[test]
fn missing_template_fields_are_errors() {
    let none = None;
    let no_timescale = Some(SegmentTemplate { timescale: None, segment_timeline: Some(vec![entry(None, 1, None)]), media: Some("m".to_string()), presentation_time_offset: None });
    assert_eq!(parse_segment_template(&no_timescale, &none, &none, 0).unwrap_err(), ParseError::SegmentTemplateWithoutTimescale);
    let no_timeline = Some(SegmentTemplate { timescale: Some(1), segment_timeline: None, media: Some("m".to_string()), presentation_time_offset: None });
    assert_eq!(parse_segment_template(&no_timeline, &none, &none, 0).unwrap_err(), ParseError::SegmentTemplateWithoutSegmentTimeline);
    let no_media = Some(SegmentTemplate { timescale: Some(1), segment_timeline: Some(vec![entry(None, 1, None)]), media: None, presentation_time_offset: None });
    assert_eq!(parse_segment_template(&no_media, &none, &none, 0).unwrap_err(), ParseError::CannotInferSegmentTemplateMediaUrl);
    let zero = Some(template(0, vec![entry(None, 1, None)], None));
    assert_eq!(parse_segment_template(&zero, &none, &none, 0).unwrap_err(), ParseError::SegmentTemplateWithZeroTimescale);
    let empty = Some(template(1, vec![], None));
    assert_eq!(parse_segment_template(&empty, &none, &none, 0).unwrap_err(), ParseError::SegmentTimelineWithoutSegments);
    let empty_at_zero = Some(template(0, vec![], None));
    assert_eq!(parse_segment_template(&empty_at_zero, &none, &none, 0).unwrap_err(), ParseError::SegmentTimelineWithoutSegments);
}

#[test]
fn negative_repeat_and_overflow_are_errors() {
    let none = None;
    let negative = Some(template(1, vec![entry(None, 1, Some(-1))], None));
    assert_eq!(parse_segment_template(&negative, &none, &none, 0).unwrap_err(), ParseError::SegmentWithNegativeRepeat);
    let huge = Some(template(1, vec![entry(None, u64::MAX / 2, None)], None));
    assert_eq!(parse_segment_template(&huge, &none, &none, 0).unwrap_err(), ParseError::SegmentTimeOverflow);
}

#[test]
fn period_times_must_be_whole_milliseconds() {
    let mut p = period(Some("p0"), Some(TimeSpan { secs: 1, nanos: 500_000 }), vec![]);
    assert_eq!(parse_period_start_ms(&p, 7), Err(ParseError::CannotParsePeriodStartAsU64));
    p.start = Some(TimeSpan { secs: 1, nanos: 250_000_000 });
    assert_eq!(parse_period_start_ms(&p, 7), Ok(1250));
    p.start = None;
    assert_eq!(parse_period_start_ms(&p, 7), Ok(7));
    assert_eq!(parse_period_duration_ms(&p), Ok(None));
    p.duration = Some(TimeSpan { secs: 3, nanos: 1 });
    assert_eq!(parse_period_duration_ms(&p), Err(ParseError::CannotParsePeriodDurationAsU64));
    p.duration = Some(TimeSpan { secs: 3, nanos: 0 });
    assert_eq!(parse_period_duration_ms(&p), Ok(Some(3000)));
    p.start = Some(TimeSpan { secs: u64::MAX, nanos: 0 });
    assert_eq!(parse_period_start_ms(&p, 0), Err(ParseError::CannotParsePeriodStartAsU64));
}

#[test]
fn fractional_period_start_fails_expansion_naming_the_period() {
    let st = template(1000, vec![entry(None, 1000, None)], None);
    let p = period(Some("late"), Some(TimeSpan { secs: 0, nanos: 1 }), vec![audio_set("a0", Some(st), vec![audio_rep("r0")])]);
    let e = ExpandedMpd::new(&Manifest { periods: vec![p] }).unwrap_err();
    assert_eq!(e.kind, ParseError::CannotParsePeriodStartAsU64);
    assert_eq!(e.id, "late");
}

#[test]
fn empty_levels_are_errors() {
    let e = ExpandedMpd::new(&Manifest { periods: vec![] }).unwrap_err();
    assert_eq!(e.kind, ParseError::MpdWithoutPeriods);
    let e = ExpandedMpd::new(&Manifest { periods: vec![period(Some("p0"), None, vec![])] }).unwrap_err();
    assert_eq!(e.kind, ParseError::PeriodWithoutAdaptationSets);
    assert_eq!(e.id, "p0");
    let e = ExpandedMpd::new(&Manifest { periods: vec![period(Some("p0"), None, vec![audio_set("a0", None, vec![])])] }).unwrap_err();
    assert_eq!(e.kind, ParseError::AdaptationSetWithoutRepresentations);
    let list = ExpandedSegments::SegmentList;
    assert_eq!(list.start_ms(), Err(ParseError::SegmentListNotImplemented));
    assert_eq!(list.end_ms(), Err(ParseError::SegmentListNotImplemented));
    let empty = ExpandedSegmentTimeline { segments: vec![] };
    assert_eq!(empty.start_ms(), Err(ParseError::SegmentTimelineWithoutSegments));
}

#[test]
fn errors_describe_themselves() {
    assert_eq!(
        ParseError::RepresentationWithoutWidth.describe(),
        "\nParseError::RepresentationWithoutWidth: No width on Representation\n"
    );
    assert_eq!(DrawError::CannotCreateFont.describe(), "\nDrawError::CannotCreateFont: Unable to create font\n");
    let e = ExpandedMpd::new(&Manifest { periods: vec![] }).unwrap_err();
    assert_eq!(e.describe(), "\nParseError::MpdWithoutPeriods: Manifest with no periods (MPD)\n");
}

#[test]
fn durations_are_written_in_words() {
    assert_eq!(format_duration(0), "");
    assert_eq!(format_duration(5), "5ms");
    assert_eq!(format_duration(1500), "1.500ms");
    assert_eq!(format_duration(61_000), "1min 1.0ms");
    assert_eq!(format_duration(3_600_000), "1hr");
    assert_eq!(format_duration(31_536_000_000 + 2_592_000_000 + 86_400_000 + 7), "1yr 1mo 1day 7ms");
}

#[test]
fn pixels_are_truncated() {
    assert_eq!(ms_to_pixels(1500, 40), 60);
    assert_eq!(ms_to_pixels(999, 40), 39);
    assert_eq!(ms_to_pixels(0, 40), 0);
}

#[test]
fn period_width_counts_columns() {
    let st = template(1000, vec![entry(None, 1000, None)], None);
    let p = period(
        Some("p0"),
        None,
        vec![
            audio_set("a0", Some(st.clone()), vec![audio_rep("r0"), audio_rep("r1")]),
            video_set("v0", Some(st), vec![video_rep("v0")]),
        ],
    );
    let mpd = ExpandedMpd::new(&Manifest { periods: vec![p] }).unwrap();
    assert_eq!(get_period_width(&mpd.periods[0]), Some(150));
    assert_eq!(get_period_height(&mpd.periods[0]), Some(40));
}

#[test]
fn long_manifests_are_not_rendered() {
    let short = ExpandedMpd::new(&single_period(template(1000, vec![entry(None, 2000, Some(4))], None))).unwrap();
    assert_eq!(render_duration_ms(&short), Ok(Some(10000)));
    let long = ExpandedMpd::new(&single_period(template(1000, vec![entry(None, 600_001, None)], None))).unwrap();
    assert_eq!(render_duration_ms(&long), Ok(None));
}

#[test]
fn colors_have_fixed_components() {
    assert_eq!(Color::AudioSegmentOdd.to_rgba(), (144, 190, 109, 255));
    assert_eq!(Color::VideoSegmentEven.to_rgba(), (47, 151, 196, 255));
    assert_eq!(Color::Blue.to_rgba(), (0, 0, 255, 255));
}
