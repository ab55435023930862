use vstd::prelude::*;

use crate::error::ParseError;

verus! {

/// The two kinds of adaptation set that a timeline can hold.
#[derive(Debug, Clone, Copy, PartialEq, Eq, Structural)]
pub enum ContentType {
    Audio,
    Video,
}

/// One `S` element of a segment timeline in absolute milliseconds: the
/// group of `segment_count` segments of `segment_duration_ms` each that
/// starts at `start_ms` and ends at `end_ms`.
#[derive(Debug, Clone, Copy, PartialEq, Eq, Structural)]
pub struct ExpandedSegmentTimelineSegment {
    pub start_ms: u64,
    pub end_ms: u64,
    pub duration_ms: u64,
    pub segment_duration_ms: u64,
    pub segment_count: u64,
    pub presentation_time_offset: u64,
}

/// The records of one segment timeline, in the order of its entries.
#[derive(Debug, Clone)]
pub struct ExpandedSegmentTimeline {
    pub segments: Vec<ExpandedSegmentTimelineSegment>,
}

/// How a representation addresses its segments.
#[derive(Debug, Clone)]
pub enum ExpandedSegments {
    SegmentTemplate { segment_timeline: ExpandedSegmentTimeline },
    SegmentList,
}

/// A representation: its resolved description and its segments.
#[derive(Debug, Clone)]
pub struct ExpandedRepresentation {
    pub description: String,
    pub segments: ExpandedSegments,
}

/// An adaptation set: its content type and its representations.
#[derive(Debug, Clone)]
pub struct ExpandedAdaptationSet {
    pub content_type: ContentType,
    pub representations: Vec<ExpandedRepresentation>,
}

/// A period: its declared start and duration, its identifier and its
/// adaptation sets.
#[derive(Debug, Clone)]
pub struct ExpandedPeriod {
    pub adaptation_sets: Vec<ExpandedAdaptationSet>,
    pub period_start_ms: u64,
    pub period_duration_ms: Option<u64>,
    pub id: String,
}

/// A manifest expanded to absolute milliseconds.
#[derive(Debug, Clone)]
pub struct ExpandedMpd {
    pub periods: Vec<ExpandedPeriod>,
}

/// What the segments of a representation are, as values.
pub enum SegmentsModel {
    Template(Seq<ExpandedSegmentTimelineSegment>),
    List,
}

/// A representation as a value: its description and its segments.
pub struct RepresentationModel {
    pub description: Seq<char>,
    pub segments: SegmentsModel,
}

/// An adaptation set as a value.
pub struct AdaptationSetModel {
    pub content_type: ContentType,
    pub representations: Seq<RepresentationModel>,
}

/// A period as a value.
pub struct PeriodModel {
    pub adaptation_sets: Seq<AdaptationSetModel>,
    pub period_start_ms: u64,
    pub period_duration_ms: Option<u64>,
    pub id: Seq<char>,
}

impl View for ExpandedSegmentTimeline {
    type V = Seq<ExpandedSegmentTimelineSegment>;

    open spec fn view(&self) -> Seq<ExpandedSegmentTimelineSegment> {
        self.segments@
    }
}

impl View for ExpandedSegments {
    type V = SegmentsModel;

    open spec fn view(&self) -> SegmentsModel {
        match self {
            ExpandedSegments::SegmentTemplate { segment_timeline } => SegmentsModel::Template(segment_timeline@),
            ExpandedSegments::SegmentList => SegmentsModel::List,
        }
    }
}

impl View for ExpandedRepresentation {
    type V = RepresentationModel;

    open spec fn view(&self) -> RepresentationModel {
        RepresentationModel { description: self.description@, segments: self.segments@ }
    }
}

impl View for ExpandedAdaptationSet {
    type V = AdaptationSetModel;

    open spec fn view(&self) -> AdaptationSetModel {
        AdaptationSetModel {
            content_type: self.content_type,
            representations: self.representations@.map_values(|r: ExpandedRepresentation| r@),
        }
    }
}

impl View for ExpandedPeriod {
    type V = PeriodModel;

    open spec fn view(&self) -> PeriodModel {
        PeriodModel {
            adaptation_sets: self.adaptation_sets@.map_values(|a: ExpandedAdaptationSet| a@),
            period_start_ms: self.period_start_ms,
            period_duration_ms: self.period_duration_ms,
            id: self.id@,
        }
    }
}

impl View for ExpandedMpd {
    type V = Seq<PeriodModel>;

    open spec fn view(&self) -> Seq<PeriodModel> {
        self.periods@.map_values(|p: ExpandedPeriod| p@)
    }
}

/// Start of a timeline: that of its first record.
pub open spec fn timeline_start(s: Seq<ExpandedSegmentTimelineSegment>) -> Result<u64, ParseError> {
    if s.len() == 0 {
        Err(ParseError::SegmentTimelineWithoutSegments)
    } else {
        Ok(s[0].start_ms)
    }
}

/// End of a timeline: that of its last record.
pub open spec fn timeline_end(s: Seq<ExpandedSegmentTimelineSegment>) -> Result<u64, ParseError> {
    if s.len() == 0 {
        Err(ParseError::SegmentTimelineWithoutSegments)
    } else {
        Ok(s.last().end_ms)
    }
}

/// Start of a representation's segments; addressing by segment list has no
/// extent here.
pub open spec fn segments_start(m: SegmentsModel) -> Result<u64, ParseError> {
    match m {
        SegmentsModel::Template(s) => timeline_start(s),
        SegmentsModel::List => Err(ParseError::SegmentListNotImplemented),
    }
}

/// End of a representation's segments.
pub open spec fn segments_end(m: SegmentsModel) -> Result<u64, ParseError> {
    match m {
        SegmentsModel::Template(s) => timeline_end(s),
        SegmentsModel::List => Err(ParseError::SegmentListNotImplemented),
    }
}

/// Start of a representation: that of its segments.
pub open spec fn representation_start(r: RepresentationModel) -> Result<u64, ParseError> {
    segments_start(r.segments)
}

/// End of a representation: that of its segments.
pub open spec fn representation_end(r: RepresentationModel) -> Result<u64, ParseError> {
    segments_end(r.segments)
}

/// Start of an adaptation set: that of its first representation.
pub open spec fn adaptation_set_start(a: AdaptationSetModel) -> Result<u64, ParseError> {
    if a.representations.len() == 0 {
        Err(ParseError::AdaptationSetWithoutRepresentations)
    } else {
        representation_start(a.representations[0])
    }
}

/// End of an adaptation set: that of its last representation.
pub open spec fn adaptation_set_end(a: AdaptationSetModel) -> Result<u64, ParseError> {
    if a.representations.len() == 0 {
        Err(ParseError::AdaptationSetWithoutRepresentations)
    } else {
        representation_end(a.representations.last())
    }
}

/// Computed start of a period: that of its first adaptation set.
pub open spec fn period_start(p: PeriodModel) -> Result<u64, ParseError> {
    if p.adaptation_sets.len() == 0 {
        Err(ParseError::PeriodWithoutAdaptationSets)
    } else {
        adaptation_set_start(p.adaptation_sets[0])
    }
}

/// Computed end of a period: that of its last adaptation set.
pub open spec fn period_end(p: PeriodModel) -> Result<u64, ParseError> {
    if p.adaptation_sets.len() == 0 {
        Err(ParseError::PeriodWithoutAdaptationSets)
    } else {
        adaptation_set_end(p.adaptation_sets.last())
    }
}

/// Start of a manifest: that of its first period.
pub open spec fn mpd_start(ps: Seq<PeriodModel>) -> Result<u64, ParseError> {
    if ps.len() == 0 {
        Err(ParseError::MpdWithoutPeriods)
    } else {
        period_start(ps[0])
    }
}

/// End of a manifest: that of its last period.
pub open spec fn mpd_end(ps: Seq<PeriodModel>) -> Result<u64, ParseError> {
    if ps.len() == 0 {
        Err(ParseError::MpdWithoutPeriods)
    } else {
        period_end(ps.last())
    }
}

/// The temporal extent that every level of an expanded manifest has: the
/// start of its first child and the end of its last one, in absolute
/// milliseconds, or the error that names the level found empty.
pub trait Expanded {
    spec fn start_spec(&self) -> Result<u64, ParseError>;

    spec fn end_spec(&self) -> Result<u64, ParseError>;

    fn start_ms(&self) -> (r: Result<u64, ParseError>)
        ensures
            r == self.start_spec(),
    ;

    fn end_ms(&self) -> (r: Result<u64, ParseError>)
        ensures
            r == self.end_spec(),
    ;
}

impl Expanded for ExpandedSegmentTimeline {
    open spec fn start_spec(&self) -> Result<u64, ParseError> {
        timeline_start(self@)
    }

    open spec fn end_spec(&self) -> Result<u64, ParseError> {
        timeline_end(self@)
    }

    fn start_ms(&self) -> (r: Result<u64, ParseError>) {
        if self.segments.len() == 0 {
            Err(ParseError::SegmentTimelineWithoutSegments)
        } else {
            Ok(self.segments[0].start_ms)
        }
    }

    fn end_ms(&self) -> (r: Result<u64, ParseError>) {
        if self.segments.len() == 0 {
            Err(ParseError::SegmentTimelineWithoutSegments)
        } else {
            Ok(self.segments[self.segments.len() - 1].end_ms)
        }
    }
}

impl Expanded for ExpandedSegments {
    open spec fn start_spec(&self) -> Result<u64, ParseError> {
        segments_start(self@)
    }

    open spec fn end_spec(&self) -> Result<u64, ParseError> {
        segments_end(self@)
    }

    fn start_ms(&self) -> (r: Result<u64, ParseError>) {
        match self {
            ExpandedSegments::SegmentTemplate { segment_timeline } => segment_timeline.start_ms(),
            ExpandedSegments::SegmentList => Err(ParseError::SegmentListNotImplemented),
        }
    }

    fn end_ms(&self) -> (r: Result<u64, ParseError>) {
        match self {
            ExpandedSegments::SegmentTemplate { segment_timeline } => segment_timeline.end_ms(),
            ExpandedSegments::SegmentList => Err(ParseError::SegmentListNotImplemented),
        }
    }
}

impl Expanded for ExpandedRepresentation {
    open spec fn start_spec(&self) -> Result<u64, ParseError> {
        representation_start(self@)
    }

    open spec fn end_spec(&self) -> Result<u64, ParseError> {
        representation_end(self@)
    }

    fn start_ms(&self) -> (r: Result<u64, ParseError>) {
        self.segments.start_ms()
    }

    fn end_ms(&self) -> (r: Result<u64, ParseError>) {
        self.segments.end_ms()
    }
}

impl Expanded for ExpandedAdaptationSet {
    open spec fn start_spec(&self) -> Result<u64, ParseError> {
        adaptation_set_start(self@)
    }

    open spec fn end_spec(&self) -> Result<u64, ParseError> {
        adaptation_set_end(self@)
    }

    fn start_ms(&self) -> (r: Result<u64, ParseError>) {
        if self.representations.len() == 0 {
            Err(ParseError::AdaptationSetWithoutRepresentations)
        } else {
            self.representations[0].start_ms()
        }
    }

    fn end_ms(&self) -> (r: Result<u64, ParseError>) {
        let n = self.representations.len();
        if n == 0 {
            Err(ParseError::AdaptationSetWithoutRepresentations)
        } else {
            self.representations[n - 1].end_ms()
        }
    }
}

impl Expanded for ExpandedPeriod {
    open spec fn start_spec(&self) -> Result<u64, ParseError> {
        period_start(self@)
    }

    open spec fn end_spec(&self) -> Result<u64, ParseError> {
        period_end(self@)
    }

    fn start_ms(&self) -> (r: Result<u64, ParseError>) {
        if self.adaptation_sets.len() == 0 {
            Err(ParseError::PeriodWithoutAdaptationSets)
        } else {
            self.adaptation_sets[0].start_ms()
        }
    }

    fn end_ms(&self) -> (r: Result<u64, ParseError>) {
        let n = self.adaptation_sets.len();
        if n == 0 {
            Err(ParseError::PeriodWithoutAdaptationSets)
        } else {
            self.adaptation_sets[n - 1].end_ms()
        }
    }
}

impl Expanded for ExpandedMpd {
    open spec fn start_spec(&self) -> Result<u64, ParseError> {
        mpd_start(self@)
    }

    open spec fn end_spec(&self) -> Result<u64, ParseError> {
        mpd_end(self@)
    }

    fn start_ms(&self) -> (r: Result<u64, ParseError>) {
        if self.periods.len() == 0 {
            Err(ParseError::MpdWithoutPeriods)
        } else {
            self.periods[0].start_ms()
        }
    }

    fn end_ms(&self) -> (r: Result<u64, ParseError>) {
        let n = self.periods.len();
        if n == 0 {
            Err(ParseError::MpdWithoutPeriods)
        } else {
            self.periods[n - 1].end_ms()
        }
    }
}

/// The length of the gap before a period's segments: by how much their
/// computed start lies after the declared start, or zero when it does not.
pub open spec fn gap_spec(p: PeriodModel) -> Result<u64, ParseError> {
    match period_start(p) {
        Err(e) => Err(e),
        Ok(s) => Ok(if s > p.period_start_ms { (s - p.period_start_ms) as u64 } else { 0 }),
    }
}

impl ExpandedPeriod {
    /// By how much the first adaptation set starts before the period's
    /// computed start. The computed start is that of the first adaptation
    /// set, so this is zero whenever the period has an extent.
    pub fn gap_start(&self) -> (r: Result<u64, ParseError>)
        ensures
            r == (match period_start(self@) {
                Err(e) => Err(e),
                Ok(_) => Ok::<u64, ParseError>(0),
            }),
    {
        if self.adaptation_sets.len() == 0 {
            return Err(ParseError::PeriodWithoutAdaptationSets);
        }
        let segments_start_ms = self.adaptation_sets[0].start_ms()?;
        let start = self.start_ms()?;
        if segments_start_ms < start {
            Ok(start - segments_start_ms)
        } else {
            Ok(0)
        }
    }

    /// The earlier of the first adaptation set's start and the period's
    /// computed start: the computed start.
    pub fn gap_end(&self) -> (r: Result<u64, ParseError>)
        ensures
            r == period_start(self@),
    {
        if self.adaptation_sets.len() == 0 {
            return Err(ParseError::PeriodWithoutAdaptationSets);
        }
        let segments_start_ms = self.adaptation_sets[0].start_ms()?;
        let start = self.start_ms()?;
        if segments_start_ms < start {
            Ok(segments_start_ms)
        } else {
            Ok(start)
        }
    }

    /// The length of the gap between this period's declared start and the
    /// start of its segments; zero when the segments start no later.
    pub fn gap_ms(&self) -> (r: Result<u64, ParseError>)
        ensures
            r == gap_spec(self@),
    {
        let s = self.start_ms()?;
        if s > self.period_start_ms {
            Ok(s - self.period_start_ms)
        } else {
            Ok(0)
        }
    }
}

} // verus!
