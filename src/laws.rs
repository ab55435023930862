use vstd::prelude::*;
use vstd::arithmetic::div_mod::{lemma_div_is_ordered, lemma_fundamental_div_mod, lemma_hoist_over_denominator};

use crate::describe::{cascade, content_type_spec, description_spec};
use crate::error::{ExpandError, ParseError};
use crate::expand::{
    expand_adaptation_set, expand_adaptation_sets, expand_period, expand_periods, expand_representation,
    expand_representations, expand_spec, id_or_placeholder, Failure,
};
use crate::expanded::{
    period_end, AdaptationSetModel, ContentType, ExpandedMpd, ExpandedSegmentTimelineSegment, PeriodModel,
    RepresentationModel,
};
use crate::period::declared_start_spec;
use crate::manifest::{AdaptationSet, Manifest, Period, Representation, SegmentTemplate, TimelineEntry};
use crate::timeline::{segments_spec, decode_prefix, decode_timeline, entry_fault, next_tick, repeat_count, segment_record, start_tick};

verus! {

proof fn lemma_periods_len(ps: Seq<Period>, n: nat)
    requires
        expand_periods(ps, n) is Ok,
    ensures
        expand_periods(ps, n)->Ok_0.0.len() == n,
    decreases n,
{
    if n > 0 {
        lemma_periods_len(ps, (n - 1) as nat);
    }
}

proof fn lemma_period_at(ps: Seq<Period>, n: nat, i: nat)
    requires
        expand_periods(ps, n) is Ok,
        i < n,
    ensures
        expand_periods(ps, i) is Ok,
        ({
            let done = expand_periods(ps, n)->Ok_0.0;
            let before = expand_periods(ps, i)->Ok_0.0;
            let prev = expand_periods(ps, i)->Ok_0.1;
            &&& expand_period(ps[i as int], prev) is Ok
            &&& done[i as int] == expand_period(ps[i as int], prev)->Ok_0
            &&& i > 0 ==> done[i - 1] == before[i - 1] && period_end(before[i - 1]) == Ok::<u64, ParseError>(prev)
        }),
    decreases n,
{
    lemma_periods_len(ps, n);
    if n > i + 1 {
        lemma_period_at(ps, (n - 1) as nat, i);
        lemma_periods_len(ps, (n - 1) as nat);
    } else if i > 0 {
        lemma_periods_len(ps, i);
        lemma_periods_len(ps, (i - 1) as nat);
    }
}

/// A period without an explicit start is declared to start where the
/// segments of the period before it end, and the first such period at zero.
pub proof fn lemma_declared_start_follows_previous_end(m: Manifest, i: int)
    requires
        expand_spec(m) is Ok,
        0 <= i < m.periods@.len(),
        m.periods@[i].start is None,
    ensures
        ({
            let ps = expand_spec(m)->Ok_0;
            &&& i == 0 ==> ps[i].period_start_ms == 0
            &&& i > 0 ==> period_end(ps[i - 1]) == Ok::<u64, ParseError>(ps[i].period_start_ms)
        }),
{
    lemma_period_at(m.periods@, m.periods@.len(), i as nat);
}

proof fn lemma_adaptation_set_at(p: Period, n: nat, j: nat, start: u64)
    requires
        expand_adaptation_sets(p, n, start) is Ok,
        j < n,
    ensures
        expand_adaptation_set(p.adaptations@[j as int], p, start) is Ok,
    decreases n,
{
    if j + 1 < n {
        lemma_adaptation_set_at(p, (n - 1) as nat, j, start);
    }
}

proof fn lemma_representation_at(a: AdaptationSet, n: nat, k: nat, p: Period, start: u64)
    requires
        expand_representations(a, n, p, start) is Ok,
        k < n,
    ensures
        expand_representation(a.representations@[k as int], a, p, start) is Ok,
    decreases n,
{
    if k + 1 < n {
        lemma_representation_at(a, (n - 1) as nat, k, p, start);
    }
}

/// Within an expanded manifest, every adaptation set expanded without
/// failure, against its period's declared start.
proof fn lemma_expanded_set(m: Manifest, i: int, j: int)
    requires
        expand_spec(m) is Ok,
        0 <= i < m.periods@.len(),
        0 <= j < m.periods@[i].adaptations@.len(),
    ensures
        exists|start: u64| #[trigger] expand_adaptation_set(m.periods@[i].adaptations@[j], m.periods@[i], start) is Ok,
{
    let ps = m.periods@;
    lemma_period_at(ps, ps.len(), i as nat);
    let prev = expand_periods(ps, i as nat)->Ok_0.1;
    let p = ps[i];
    let start = declared_start_spec(p, prev)->Ok_0;
    assert(expand_adaptation_sets(p, p.adaptations@.len(), start) is Ok);
    lemma_adaptation_set_at(p, p.adaptations@.len(), j as nat, start);
}

/// An adaptation set whose content type is neither audio nor video fails
/// the whole expansion; that set's own failure is an unrecognised content
/// type naming the set.
pub proof fn lemma_unrecognized_content_type_fails(m: Manifest, i: int, j: int)
    requires
        0 <= i < m.periods@.len(),
        0 <= j < m.periods@[i].adaptations@.len(),
        content_type_spec(m.periods@[i].adaptations@[j].content_type) is None,
    ensures
        expand_spec(m) is Err,
        forall|start: u64| expand_adaptation_set(m.periods@[i].adaptations@[j], m.periods@[i], start)
            == Err::<AdaptationSetModel, Failure>((
                ParseError::AdaptationSetWithoutContentType,
                id_or_placeholder(m.periods@[i].adaptations@[j].id),
            )),
{
    if expand_spec(m) is Ok {
        lemma_expanded_set(m, i, j);
    }
}

/// A video representation without a width fails the whole expansion; once
/// its mime type, codecs and frame rate resolve, its own failure is the
/// missing width, naming the representation, and not the audio error.
pub proof fn lemma_video_without_width_fails(m: Manifest, i: int, j: int, k: int)
    requires
        0 <= i < m.periods@.len(),
        0 <= j < m.periods@[i].adaptations@.len(),
        0 <= k < m.periods@[i].adaptations@[j].representations@.len(),
        content_type_spec(m.periods@[i].adaptations@[j].content_type) == Some(ContentType::Video),
        m.periods@[i].adaptations@[j].representations@[k].width is None,
    ensures
        expand_spec(m) is Err,
        ({
            let p = m.periods@[i];
            let a = p.adaptations@[j];
            let rep = a.representations@[k];
            cascade(rep.mime_type, a.mime_type) is Some && cascade(rep.codecs, a.codecs) is Some
                && cascade(rep.frame_rate, a.frame_rate) is Some ==> forall|start: u64|
                expand_representation(rep, a, p, start) == Err::<RepresentationModel, Failure>(
                    (ParseError::RepresentationWithoutWidth, id_or_placeholder(rep.id)),
                ) && ParseError::RepresentationWithoutWidth != ParseError::CannotInferRepresentationAudioSamplingRate
        }),
{
    let p = m.periods@[i];
    let a = p.adaptations@[j];
    let rep = a.representations@[k];
    assert(description_spec(rep, a) is Err);
    if expand_spec(m) is Ok {
        lemma_expanded_set(m, i, j);
        let start = choose|start: u64| #[trigger] expand_adaptation_set(a, p, start) is Ok;
        lemma_representation_at(a, a.representations@.len(), k as nat, p, start);
    }
}

/// Expanding the same manifest twice gives the same periods, adaptation
/// sets, representations and records, or the same failure.
pub proof fn lemma_expansion_repeatable(m: Manifest, first: Result<ExpandedMpd, ExpandError>, second: Result<ExpandedMpd, ExpandError>)
    requires
        match first {
            Ok(x) => expand_spec(m) == Ok::<Seq<PeriodModel>, Failure>(x@),
            Err(e) => expand_spec(m) == Err::<Seq<PeriodModel>, Failure>((e.kind, e.id@)),
        },
        match second {
            Ok(x) => expand_spec(m) == Ok::<Seq<PeriodModel>, Failure>(x@),
            Err(e) => expand_spec(m) == Err::<Seq<PeriodModel>, Failure>((e.kind, e.id@)),
        },
    ensures
        match (first, second) {
            (Ok(a), Ok(b)) => a@ == b@,
            (Err(a), Err(b)) => a.kind == b.kind && a.id@ == b.id@,
            _ => false,
        },
{
}

/// A representation with every attribute it omits filled in from its
/// adaptation set.
pub open spec fn with_inherited(rep: Representation, a: AdaptationSet) -> Representation {
    Representation {
        mime_type: if rep.mime_type is Some { rep.mime_type } else { a.mime_type },
        codecs: if rep.codecs is Some { rep.codecs } else { a.codecs },
        audio_sampling_rate: if rep.audio_sampling_rate is Some { rep.audio_sampling_rate } else { a.audio_sampling_rate },
        frame_rate: if rep.frame_rate is Some { rep.frame_rate } else { a.frame_rate },
        ..rep
    }
}

/// An attribute that a representation omits resolves to its adaptation
/// set's value: the representation is described as if it had set it.
pub proof fn lemma_omitted_attribute_inherited(rep: Representation, a: AdaptationSet)
    ensures
        description_spec(rep, a) == description_spec(with_inherited(rep, a), a),
{
}

/// An attribute that a representation sets wins over its adaptation set's:
/// changing the adaptation set's value of an attribute that the
/// representation sets changes nothing.
pub proof fn lemma_representation_attribute_preferred(rep: Representation, a: AdaptationSet, b: AdaptationSet)
    requires
        a.content_type == b.content_type,
        rep.mime_type is None ==> a.mime_type == b.mime_type,
        rep.codecs is None ==> a.codecs == b.codecs,
        rep.audio_sampling_rate is None ==> a.audio_sampling_rate == b.audio_sampling_rate,
        rep.frame_rate is None ==> a.frame_rate == b.frame_rate,
    ensures
        description_spec(rep, a) == description_spec(rep, b),
{
}

/// The field of a template at a level that may not have one.
pub open spec fn template_field<T>(t: Option<SegmentTemplate>, f: spec_fn(SegmentTemplate) -> Option<T>) -> Option<T> {
    match t {
        Some(st) => f(st),
        None => None,
    }
}

/// A representation's segment template with every timing field it omits
/// filled in from the adaptation set's.
pub open spec fn template_with_inherited(r: Option<SegmentTemplate>, a: Option<SegmentTemplate>) -> Option<SegmentTemplate> {
    let rt = template_field(r, |st: SegmentTemplate| st.timescale);
    let rl = template_field(r, |st: SegmentTemplate| st.segment_timeline);
    let rm = template_field(r, |st: SegmentTemplate| st.media);
    let ro = template_field(r, |st: SegmentTemplate| st.presentation_time_offset);
    Some(SegmentTemplate {
        timescale: if rt is Some { rt } else { template_field(a, |st: SegmentTemplate| st.timescale) },
        segment_timeline: if rl is Some { rl } else { template_field(a, |st: SegmentTemplate| st.segment_timeline) },
        media: if rm is Some { rm } else { template_field(a, |st: SegmentTemplate| st.media) },
        presentation_time_offset: if ro is Some { ro } else { template_field(a, |st: SegmentTemplate| st.presentation_time_offset) },
    })
}

/// Timing fields cascade too: a representation's segments are decoded as
/// if every field its template omits were set to the adaptation set's value.
pub proof fn lemma_omitted_timing_inherited(r: Option<SegmentTemplate>, a: Option<SegmentTemplate>, p: Option<SegmentTemplate>, period_start: u64)
    ensures
        segments_spec(r, a, p, period_start) == segments_spec(template_with_inherited(r, a), a, p, period_start),
{
}

proof fn lemma_decoded_records(es: Seq<TimelineEntry>, n: nat, timescale: int, offset: int, period_start: int, s: Seq<ExpandedSegmentTimelineSegment>)
    requires
        decode_prefix(es, n, timescale, offset, period_start) == Ok::<Seq<ExpandedSegmentTimelineSegment>, ParseError>(s),
    ensures
        s.len() == n,
        forall|j: int| #![trigger s[j]] 0 <= j < n ==> s[j] == segment_record(es[j], start_tick(es, j as nat), timescale, offset, period_start),
        forall|j: int| 0 <= j < n ==> #[trigger] entry_fault(es[j], start_tick(es, j as nat), timescale, offset, period_start) is None,
    decreases n,
{
    if n > 0 {
        let before = decode_prefix(es, (n - 1) as nat, timescale, offset, period_start)->Ok_0;
        lemma_decoded_records(es, (n - 1) as nat, timescale, offset, period_start, before);
        let k = n - 1;
        assert(s[k] == segment_record(es[k], start_tick(es, k as nat), timescale, offset, period_start));
        assert(entry_fault(es[k], start_tick(es, k as nat), timescale, offset, period_start) is None);
        assert forall|j: int| 0 <= j < n - 1 implies s[j] == before[j] by {}
    }
}

/// Records of a decoded timeline start in the order of their entries'
/// start ticks; an entry without an explicit time never starts before the
/// one ahead of it.
pub proof fn lemma_timeline_start_order(es: Seq<TimelineEntry>, timescale: int, offset: int, period_start: int, i: int)
    requires
        timescale > 0,
        period_start >= 0,
        decode_timeline(es, timescale, offset, period_start) is Ok,
        0 <= i,
        i + 1 < es.len(),
        start_tick(es, i as nat) <= start_tick(es, (i + 1) as nat) || es[i + 1].t is None,
    ensures
        ({
            let s = decode_timeline(es, timescale, offset, period_start)->Ok_0;
            s[i].start_ms <= s[i + 1].start_ms
        }),
{
    let s = decode_timeline(es, timescale, offset, period_start)->Ok_0;
    lemma_decoded_records(es, es.len(), timescale, offset, period_start, s);
    assert(s[i] == segment_record(es[i], start_tick(es, i as nat), timescale, offset, period_start));
    assert(s[i + 1] == segment_record(es[i + 1], start_tick(es, (i + 1) as nat), timescale, offset, period_start));
    let a = start_tick(es, i as nat);
    let b = start_tick(es, (i + 1) as nat);
    assert(entry_fault(es[i], a, timescale, offset, period_start) is None);
    assert(entry_fault(es[i + 1], b, timescale, offset, period_start) is None);
    if es[i + 1].t is None {
        assert(b == next_tick(es, i as nat));
        assert(es[i].d * repeat_count(es[i]) >= 0) by (nonlinear_arith)
            requires
                es[i].d >= 0,
                repeat_count(es[i]) >= 1,
        ;
    }
    assert(1000 * (a - offset) <= 1000 * (b - offset)) by (nonlinear_arith)
        requires
            a <= b,
    ;
    lemma_div_is_ordered(1000 * (a - offset), 1000 * (b - offset), timescale);
}

/// Where an entry's per-segment duration is a whole number of
/// milliseconds, the next entry, when it has no explicit time, starts
/// exactly where it ends.
pub proof fn lemma_timeline_continuity(es: Seq<TimelineEntry>, timescale: int, offset: int, period_start: int, i: int)
    requires
        timescale > 0,
        period_start >= 0,
        decode_timeline(es, timescale, offset, period_start) is Ok,
        0 <= i,
        i + 1 < es.len(),
        es[i + 1].t is None,
        (es[i].d * 1000) % timescale == 0,
    ensures
        ({
            let s = decode_timeline(es, timescale, offset, period_start)->Ok_0;
            s[i].end_ms == s[i + 1].start_ms
        }),
{
    let s = decode_timeline(es, timescale, offset, period_start)->Ok_0;
    lemma_decoded_records(es, es.len(), timescale, offset, period_start, s);
    assert(s[i] == segment_record(es[i], start_tick(es, i as nat), timescale, offset, period_start));
    assert(s[i + 1] == segment_record(es[i + 1], start_tick(es, (i + 1) as nat), timescale, offset, period_start));
    let e = es[i];
    let a = start_tick(es, i as nat);
    let c = repeat_count(e);
    assert(start_tick(es, (i + 1) as nat) == a + e.d * c);
    assert(entry_fault(e, a, timescale, offset, period_start) is None);
    let k = e.d * 1000 / timescale;
    lemma_fundamental_div_mod(e.d * 1000, timescale);
    assert(e.d * 1000 == timescale * k);
    let x = 1000 * (a - offset);
    assert(1000 * (a + e.d * c - offset) == x + (k * c) * timescale) by (nonlinear_arith)
        requires
            e.d * 1000 == timescale * k,
            x == 1000 * (a - offset),
    ;
    lemma_hoist_over_denominator(x, k * c, timescale as nat);
}

} // verus!
