use vstd::prelude::*;

use crate::error::ParseError;
use crate::expanded::{ExpandedSegmentTimeline, ExpandedSegmentTimelineSegment, ExpandedSegments, SegmentsModel};
use crate::manifest::{SegmentTemplate, TimelineEntry};

verus! {

/// The first of three values that is present.
pub open spec fn first_present<T>(a: Option<T>, b: Option<T>, c: Option<T>) -> Option<T> {
    if a is Some {
        a
    } else if b is Some {
        b
    } else {
        c
    }
}

pub open spec fn template_timescale(t: Option<SegmentTemplate>) -> Option<u64> {
    match t {
        Some(st) => st.timescale,
        None => None,
    }
}

pub open spec fn template_timeline(t: Option<SegmentTemplate>) -> Option<Seq<TimelineEntry>> {
    match t {
        Some(st) => match st.segment_timeline {
            Some(v) => Some(v@),
            None => None,
        },
        None => None,
    }
}

pub open spec fn template_media(t: Option<SegmentTemplate>) -> Option<Seq<char>> {
    match t {
        Some(st) => match st.media {
            Some(m) => Some(m@),
            None => None,
        },
        None => None,
    }
}

pub open spec fn template_offset(t: Option<SegmentTemplate>) -> Option<u64> {
    match t {
        Some(st) => st.presentation_time_offset,
        None => None,
    }
}

/// Number of segments an entry stands for: its repeat count plus one, or one.
pub open spec fn repeat_count(e: TimelineEntry) -> int {
    match e.r {
        Some(r) => r + 1,
        None => 1,
    }
}

/// The tick at which entry `i` starts: its explicit time, or else where the
/// previous entry's segments end (zero for the first entry).
pub open spec fn start_tick(es: Seq<TimelineEntry>, i: nat) -> int
    decreases i, 0nat,
{
    match es[i as int].t {
        Some(t) => t as int,
        None => if i == 0 {
            0
        } else {
            next_tick(es, (i - 1) as nat)
        },
    }
}

/// The tick at which the segments of entry `i` end.
pub open spec fn next_tick(es: Seq<TimelineEntry>, i: nat) -> int
    decreases i, 1nat,
{
    start_tick(es, i) + es[i as int].d * repeat_count(es[i as int])
}

/// Per-segment duration of an entry in milliseconds, truncated.
pub open spec fn unit_ms(e: TimelineEntry, timescale: int) -> int {
    e.d * 1000 / timescale
}

/// Absolute start in milliseconds of an entry starting at `tick`, truncated.
pub open spec fn start_ms_of(tick: int, timescale: int, offset: int, period_start: int) -> int {
    period_start + 1000 * (tick - offset) / timescale
}

pub open spec fn fits_u64(x: int) -> bool {
    0 <= x <= u64::MAX
}

/// Why an entry starting at `tick` cannot be decoded, if it cannot.
pub open spec fn entry_fault(e: TimelineEntry, tick: int, timescale: int, offset: int, period_start: int) -> Option<ParseError> {
    let count = repeat_count(e);
    let unit = unit_ms(e, timescale);
    let start = start_ms_of(tick, timescale, offset, period_start);
    if e.r is Some && e.r.unwrap() < 0 {
        Some(ParseError::SegmentWithNegativeRepeat)
    } else if tick < offset {
        Some(ParseError::SegmentTimeBeforePresentationTimeOffset)
    } else if !fits_u64(e.d * 1000) || !fits_u64(e.d * count) || !fits_u64(tick + e.d * count)
        || !fits_u64(1000 * (tick - offset)) || !fits_u64(start) || !fits_u64(unit * count)
        || !fits_u64(start + unit * count) {
        Some(ParseError::SegmentTimeOverflow)
    } else {
        None
    }
}

/// The record of an entry starting at `tick`.
pub open spec fn segment_record(e: TimelineEntry, tick: int, timescale: int, offset: int, period_start: int) -> ExpandedSegmentTimelineSegment {
    let count = repeat_count(e);
    let unit = unit_ms(e, timescale);
    let start = start_ms_of(tick, timescale, offset, period_start);
    ExpandedSegmentTimelineSegment {
        start_ms: start as u64,
        end_ms: (start + unit * count) as u64,
        duration_ms: (unit * count) as u64,
        segment_duration_ms: unit as u64,
        segment_count: count as u64,
        presentation_time_offset: offset as u64,
    }
}

/// The records of the first `n` entries, or the fault of the first entry
/// among them that has one.
pub open spec fn decode_prefix(es: Seq<TimelineEntry>, n: nat, timescale: int, offset: int, period_start: int) -> Result<Seq<ExpandedSegmentTimelineSegment>, ParseError>
    decreases n,
{
    if n == 0 {
        Ok(Seq::empty())
    } else {
        match decode_prefix(es, (n - 1) as nat, timescale, offset, period_start) {
            Err(e) => Err(e),
            Ok(s) => {
                let tick = start_tick(es, (n - 1) as nat);
                match entry_fault(es[n - 1], tick, timescale, offset, period_start) {
                    Some(e) => Err(e),
                    None => Ok(s.push(segment_record(es[n - 1], tick, timescale, offset, period_start))),
                }
            },
        }
    }
}

/// A whole timeline decoded: one record per entry.
pub open spec fn decode_timeline(es: Seq<TimelineEntry>, timescale: int, offset: int, period_start: int) -> Result<Seq<ExpandedSegmentTimelineSegment>, ParseError> {
    if es.len() == 0 {
        Err(ParseError::SegmentTimelineWithoutSegments)
    } else {
        decode_prefix(es, es.len(), timescale, offset, period_start)
    }
}

/// The segments of a representation whose templates at representation,
/// adaptation set and period level are `r`, `a` and `p`: each field is taken
/// from the first level that sets it.
pub open spec fn segments_spec(r: Option<SegmentTemplate>, a: Option<SegmentTemplate>, p: Option<SegmentTemplate>, period_start: u64) -> Result<SegmentsModel, ParseError> {
    match first_present(template_timescale(r), template_timescale(a), template_timescale(p)) {
        None => Err(ParseError::SegmentTemplateWithoutTimescale),
        Some(ts) => match first_present(template_timeline(r), template_timeline(a), template_timeline(p)) {
            None => Err(ParseError::SegmentTemplateWithoutSegmentTimeline),
            Some(es) => match first_present(template_media(r), template_media(a), template_media(p)) {
                None => Err(ParseError::CannotInferSegmentTemplateMediaUrl),
                Some(_) => if es.len() == 0 {
                    Err(ParseError::SegmentTimelineWithoutSegments)
                } else if ts == 0 {
                    Err(ParseError::SegmentTemplateWithZeroTimescale)
                } else {
                    let offset = match first_present(template_offset(r), template_offset(a), template_offset(p)) {
                        Some(o) => o,
                        None => 0,
                    };
                    match decode_timeline(es, ts as int, offset as int, period_start as int) {
                        Ok(s) => Ok(SegmentsModel::Template(s)),
                        Err(e) => Err(e),
                    }
                },
            },
        },
    }
}

fn timescale_of(t: &Option<SegmentTemplate>) -> (r: Option<u64>)
    ensures
        r == template_timescale(*t),
{
    match t {
        Some(st) => st.timescale,
        None => None,
    }
}

fn offset_of(t: &Option<SegmentTemplate>) -> (r: Option<u64>)
    ensures
        r == template_offset(*t),
{
    match t {
        Some(st) => st.presentation_time_offset,
        None => None,
    }
}

fn timeline_of(t: &Option<SegmentTemplate>) -> (r: Option<&Vec<TimelineEntry>>)
    ensures
        match r {
            Some(v) => template_timeline(*t) == Some(v@),
            None => template_timeline(*t) is None,
        },
{
    match t {
        Some(st) => match &st.segment_timeline {
            Some(v) => Some(v),
            None => None,
        },
        None => None,
    }
}

fn has_media(t: &Option<SegmentTemplate>) -> (r: bool)
    ensures
        r == template_media(*t) is Some,
{
    match t {
        Some(st) => st.media.is_some(),
        None => false,
    }
}

/// Once the first `k` entries fail, every longer prefix fails alike.
proof fn lemma_fault_persists(es: Seq<TimelineEntry>, k: nat, m: nat, timescale: int, offset: int, period_start: int)
    requires
        k <= m,
        decode_prefix(es, k, timescale, offset, period_start) is Err,
    ensures
        decode_prefix(es, m, timescale, offset, period_start) == decode_prefix(es, k, timescale, offset, period_start),
    decreases m - k,
{
    if k < m {
        lemma_fault_persists(es, k, (m - 1) as nat, timescale, offset, period_start);
    }
}

/// Decodes one entry that starts at `tick`: its record and the tick where
/// its segments end.
fn decode_entry(e: TimelineEntry, tick: u64, timescale: u64, offset: u64, period_start_ms: u64) -> (r: Result<(ExpandedSegmentTimelineSegment, u64), ParseError>)
    requires
        timescale > 0,
    ensures
        match r {
            Ok((rec, next)) => {
                &&& entry_fault(e, tick as int, timescale as int, offset as int, period_start_ms as int) is None
                &&& rec == segment_record(e, tick as int, timescale as int, offset as int, period_start_ms as int)
                &&& next == tick + e.d * repeat_count(e)
            },
            Err(x) => entry_fault(e, tick as int, timescale as int, offset as int, period_start_ms as int) == Some(x),
        },
{
    let ghost ts = timescale as int;
    let ghost off = offset as int;
    let ghost ps = period_start_ms as int;
    let count: u64 = match e.r {
        Some(r) => {
            if r < 0 {
                return Err(ParseError::SegmentWithNegativeRepeat);
            }
            r as u64 + 1
        },
        None => 1,
    };
    assert(count as int == repeat_count(e));
    if tick < offset {
        return Err(ParseError::SegmentTimeBeforePresentationTimeOffset);
    }
    let d_thousand = match e.d.checked_mul(1000) {
        Some(x) => x,
        None => return Err(ParseError::SegmentTimeOverflow),
    };
    let unit = d_thousand / timescale;
    assert(unit as int == unit_ms(e, ts));
    let span = match e.d.checked_mul(count) {
        Some(x) => x,
        None => return Err(ParseError::SegmentTimeOverflow),
    };
    let next = match tick.checked_add(span) {
        Some(x) => x,
        None => return Err(ParseError::SegmentTimeOverflow),
    };
    let elapsed = match (tick - offset).checked_mul(1000) {
        Some(x) => x,
        None => return Err(ParseError::SegmentTimeOverflow),
    };
    let start = match period_start_ms.checked_add(elapsed / timescale) {
        Some(x) => x,
        None => return Err(ParseError::SegmentTimeOverflow),
    };
    assert(start as int == start_ms_of(tick as int, ts, off, ps));
    let duration = match unit.checked_mul(count) {
        Some(x) => x,
        None => return Err(ParseError::SegmentTimeOverflow),
    };
    let end = match start.checked_add(duration) {
        Some(x) => x,
        None => return Err(ParseError::SegmentTimeOverflow),
    };
    let rec = ExpandedSegmentTimelineSegment {
        start_ms: start,
        end_ms: end,
        duration_ms: duration,
        segment_duration_ms: unit,
        segment_count: count,
        presentation_time_offset: offset,
    };
    Ok((rec, next))
}

/// Decodes a segment timeline into absolute-millisecond records, one per
/// entry; `timescale` is in ticks per second, `offset` and the entries'
/// times in ticks, `period_start_ms` in milliseconds.
pub fn decode_segment_timeline(entries: &Vec<TimelineEntry>, timescale: u64, offset: u64, period_start_ms: u64) -> (r: Result<Vec<ExpandedSegmentTimelineSegment>, ParseError>)
    requires
        timescale > 0,
    ensures
        match r {
            Ok(v) => decode_timeline(entries@, timescale as int, offset as int, period_start_ms as int) == Ok::<Seq<ExpandedSegmentTimelineSegment>, ParseError>(v@),
            Err(e) => decode_timeline(entries@, timescale as int, offset as int, period_start_ms as int) == Err::<Seq<ExpandedSegmentTimelineSegment>, ParseError>(e),
        },
{
    let n = entries.len();
    if n == 0 {
        return Err(ParseError::SegmentTimelineWithoutSegments);
    }
    let ghost es = entries@;
    let ghost ts = timescale as int;
    let ghost off = offset as int;
    let ghost ps = period_start_ms as int;
    let mut out: Vec<ExpandedSegmentTimelineSegment> = Vec::new();
    let mut running: u64 = 0;
    let mut i: usize = 0;
    while i < n
        invariant
            n == es.len(),
            es == entries@,
            ts == timescale as int,
            off == offset as int,
            ps == period_start_ms as int,
            timescale > 0,
            0 <= i <= n,
            decode_prefix(es, i as nat, ts, off, ps) == Ok::<Seq<ExpandedSegmentTimelineSegment>, ParseError>(out@),
            i > 0 ==> running as int == next_tick(es, (i - 1) as nat),
            i == 0 ==> running == 0,
        decreases n - i,
    {
        let e = entries[i];
        let tick: u64 = match e.t {
            Some(t) => t,
            None => running,
        };
        assert(tick as int == start_tick(es, i as nat));
        match decode_entry(e, tick, timescale, offset, period_start_ms) {
            Err(x) => {
                proof {
                    lemma_fault_persists(es, (i + 1) as nat, n as nat, ts, off, ps);
                }
                return Err(x);
            },
            Ok((rec, next)) => {
                out.push(rec);
                running = next;
            },
        }
        i = i + 1;
    }
    Ok(out)
}

/// Resolves the timing of one representation from its segment templates at
/// representation, adaptation set and period level, and decodes its
/// timeline against the period's absolute start.
pub fn parse_segment_template(
    representation_segment_template: &Option<SegmentTemplate>,
    adaptation_segment_template: &Option<SegmentTemplate>,
    period_segment_template: &Option<SegmentTemplate>,
    period_start_ms: u64,
) -> (r: Result<ExpandedSegments, ParseError>)
    ensures
        match r {
            Ok(s) => segments_spec(*representation_segment_template, *adaptation_segment_template, *period_segment_template, period_start_ms) == Ok::<SegmentsModel, ParseError>(s@),
            Err(e) => segments_spec(*representation_segment_template, *adaptation_segment_template, *period_segment_template, period_start_ms) == Err::<SegmentsModel, ParseError>(e),
        },
{
    let rt = representation_segment_template;
    let at = adaptation_segment_template;
    let pt = period_segment_template;
    let timescale = match timescale_of(rt) {
        Some(x) => x,
        None => match timescale_of(at) {
            Some(x) => x,
            None => match timescale_of(pt) {
                Some(x) => x,
                None => return Err(ParseError::SegmentTemplateWithoutTimescale),
            },
        },
    };
    let timeline = match timeline_of(rt) {
        Some(x) => x,
        None => match timeline_of(at) {
            Some(x) => x,
            None => match timeline_of(pt) {
                Some(x) => x,
                None => return Err(ParseError::SegmentTemplateWithoutSegmentTimeline),
            },
        },
    };
    if !(has_media(rt) || has_media(at) || has_media(pt)) {
        return Err(ParseError::CannotInferSegmentTemplateMediaUrl);
    }
    if timeline.len() == 0 {
        return Err(ParseError::SegmentTimelineWithoutSegments);
    }
    if timescale == 0 {
        return Err(ParseError::SegmentTemplateWithZeroTimescale);
    }
    let offset = match offset_of(rt) {
        Some(x) => x,
        None => match offset_of(at) {
            Some(x) => x,
            None => match offset_of(pt) {
                Some(x) => x,
                None => 0,
            },
        },
    };
    let segments = decode_segment_timeline(timeline, timescale, offset, period_start_ms)?;
    Ok(ExpandedSegments::SegmentTemplate { segment_timeline: ExpandedSegmentTimeline { segments } })
}

} // verus!
