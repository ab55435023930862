use vstd::prelude::*;

verus! {

/// A span of time as whole seconds and the nanoseconds beyond them.
#[derive(Debug, Clone, Copy, PartialEq, Eq, Structural)]
pub struct TimeSpan {
    pub secs: u64,
    pub nanos: u32,
}

/// One `S` element of a segment timeline: an optional explicit start time,
/// a duration and an optional repeat count, all in ticks of the timescale.
#[derive(Debug, Clone, Copy, PartialEq, Eq, Structural)]
pub struct TimelineEntry {
    pub t: Option<u64>,
    pub d: u64,
    pub r: Option<i64>,
}

/// The timing fields of a segment template; each may be left to an
/// enclosing level.
#[derive(Debug, Clone)]
pub struct SegmentTemplate {
    pub timescale: Option<u64>,
    pub segment_timeline: Option<Vec<TimelineEntry>>,
    pub media: Option<String>,
    pub presentation_time_offset: Option<u64>,
}

/// A representation as declared in the manifest.
#[derive(Debug, Clone)]
pub struct Representation {
    pub id: Option<String>,
    pub mime_type: Option<String>,
    pub codecs: Option<String>,
    pub audio_sampling_rate: Option<String>,
    pub frame_rate: Option<String>,
    pub width: Option<u64>,
    pub height: Option<u64>,
    pub bandwidth: Option<u64>,
    pub segment_template: Option<SegmentTemplate>,
}

/// An adaptation set as declared in the manifest.
#[derive(Debug, Clone)]
pub struct AdaptationSet {
    pub id: Option<String>,
    pub content_type: Option<String>,
    pub mime_type: Option<String>,
    pub codecs: Option<String>,
    pub audio_sampling_rate: Option<String>,
    pub frame_rate: Option<String>,
    pub segment_template: Option<SegmentTemplate>,
    pub representations: Vec<Representation>,
}

/// A period as declared in the manifest.
#[derive(Debug, Clone)]
pub struct Period {
    pub id: Option<String>,
    pub start: Option<TimeSpan>,
    pub duration: Option<TimeSpan>,
    pub segment_template: Option<SegmentTemplate>,
    pub adaptations: Vec<AdaptationSet>,
}

/// A parsed manifest: its periods in document order.
#[derive(Debug, Clone)]
pub struct Manifest {
    pub periods: Vec<Period>,
}

} // verus!
