use vstd::prelude::*;

use crate::describe::{content_type_of, content_type_spec, description_spec, describe_representation};
use crate::error::{ExpandError, ParseError};
use crate::expanded::{
    period_end, AdaptationSetModel, Expanded, ExpandedAdaptationSet, ExpandedMpd, ExpandedPeriod,
    ExpandedRepresentation, PeriodModel, RepresentationModel,
};
use crate::manifest::{AdaptationSet, Manifest, Period, Representation};
use crate::period::{declared_duration_spec, declared_start_spec, parse_period_duration_ms, parse_period_start_ms};
use crate::timeline::{parse_segment_template, segments_spec};

verus! {

/// What an expansion failure reports: the error and the identifier of the
/// entity where it happened.
pub type Failure = (ParseError, Seq<char>);

/// An entity's identifier, or a placeholder when it has none.
pub open spec fn id_or_placeholder(id: Option<String>) -> Seq<char> {
    match id {
        Some(s) => s@,
        None => "No ID"@,
    }
}

/// A representation resolved within its adaptation set and period, whose
/// declared start is `start`.
pub open spec fn expand_representation(rep: Representation, a: AdaptationSet, p: Period, start: u64) -> Result<RepresentationModel, Failure> {
    match description_spec(rep, a) {
        Err(e) => Err((e, id_or_placeholder(rep.id))),
        Ok(d) => match segments_spec(rep.segment_template, a.segment_template, p.segment_template, start) {
            Err(e) => Err((e, id_or_placeholder(rep.id))),
            Ok(s) => Ok(RepresentationModel { description: d, segments: s }),
        },
    }
}

/// The first `n` representations of `a`, resolved in order.
pub open spec fn expand_representations(a: AdaptationSet, n: nat, p: Period, start: u64) -> Result<Seq<RepresentationModel>, Failure>
    decreases n,
{
    if n == 0 {
        Ok(Seq::empty())
    } else {
        match expand_representations(a, (n - 1) as nat, p, start) {
            Err(e) => Err(e),
            Ok(s) => match expand_representation(a.representations@[n - 1], a, p, start) {
                Err(e) => Err(e),
                Ok(r) => Ok(s.push(r)),
            },
        }
    }
}

/// An adaptation set resolved within its period.
pub open spec fn expand_adaptation_set(a: AdaptationSet, p: Period, start: u64) -> Result<AdaptationSetModel, Failure> {
    match content_type_spec(a.content_type) {
        None => Err((ParseError::AdaptationSetWithoutContentType, id_or_placeholder(a.id))),
        Some(ct) => match expand_representations(a, a.representations@.len(), p, start) {
            Err(e) => Err(e),
            Ok(rs) => Ok(AdaptationSetModel { content_type: ct, representations: rs }),
        },
    }
}

/// The first `n` adaptation sets of `p`, resolved in order.
pub open spec fn expand_adaptation_sets(p: Period, n: nat, start: u64) -> Result<Seq<AdaptationSetModel>, Failure>
    decreases n,
{
    if n == 0 {
        Ok(Seq::empty())
    } else {
        match expand_adaptation_sets(p, (n - 1) as nat, start) {
            Err(e) => Err(e),
            Ok(s) => match expand_adaptation_set(p.adaptations@[n - 1], p, start) {
                Err(e) => Err(e),
                Ok(a) => Ok(s.push(a)),
            },
        }
    }
}

/// A period resolved after a period whose computed end is
/// `previous_period_end_ms`.
pub open spec fn expand_period(p: Period, previous_period_end_ms: u64) -> Result<PeriodModel, Failure> {
    match declared_start_spec(p, previous_period_end_ms) {
        Err(e) => Err((e, id_or_placeholder(p.id))),
        Ok(start) => match declared_duration_spec(p) {
            Err(e) => Err((e, id_or_placeholder(p.id))),
            Ok(duration) => match expand_adaptation_sets(p, p.adaptations@.len(), start) {
                Err(e) => Err(e),
                Ok(sets) => Ok(PeriodModel {
                    adaptation_sets: sets,
                    period_start_ms: start,
                    period_duration_ms: duration,
                    id: id_or_placeholder(p.id),
                }),
            },
        },
    }
}

/// The first `n` periods resolved left to right, each after the computed
/// end of the one before, with the computed end of the last of them (zero
/// when there is none).
pub open spec fn expand_periods(ps: Seq<Period>, n: nat) -> Result<(Seq<PeriodModel>, u64), Failure>
    decreases n,
{
    if n == 0 {
        Ok((Seq::empty(), 0))
    } else {
        match expand_periods(ps, (n - 1) as nat) {
            Err(e) => Err(e),
            Ok((done, previous_end)) => match expand_period(ps[n - 1], previous_end) {
                Err(e) => Err(e),
                Ok(pm) => match period_end(pm) {
                    Err(e) => Err((e, pm.id)),
                    Ok(end) => Ok((done.push(pm), end)),
                },
            },
        }
    }
}

/// A whole manifest expanded: every period, adaptation set and
/// representation resolved, or the first failure met in document order.
pub open spec fn expand_spec(m: Manifest) -> Result<Seq<PeriodModel>, Failure> {
    if m.periods@.len() == 0 {
        Err((ParseError::MpdWithoutPeriods, "MPD"@))
    } else {
        match expand_periods(m.periods@, m.periods@.len()) {
            Err(e) => Err(e),
            Ok((ps, _)) => Ok(ps),
        }
    }
}

proof fn lemma_representations_fault_persists(a: AdaptationSet, k: nat, m: nat, p: Period, start: u64)
    requires
        k <= m,
        expand_representations(a, k, p, start) is Err,
    ensures
        expand_representations(a, m, p, start) == expand_representations(a, k, p, start),
    decreases m - k,
{
    if k < m {
        lemma_representations_fault_persists(a, k, (m - 1) as nat, p, start);
    }
}

proof fn lemma_adaptation_sets_fault_persists(p: Period, k: nat, m: nat, start: u64)
    requires
        k <= m,
        expand_adaptation_sets(p, k, start) is Err,
    ensures
        expand_adaptation_sets(p, m, start) == expand_adaptation_sets(p, k, start),
    decreases m - k,
{
    if k < m {
        lemma_adaptation_sets_fault_persists(p, k, (m - 1) as nat, start);
    }
}

proof fn lemma_periods_fault_persists(ps: Seq<Period>, k: nat, m: nat)
    requires
        k <= m,
        expand_periods(ps, k) is Err,
    ensures
        expand_periods(ps, m) == expand_periods(ps, k),
    decreases m - k,
{
    if k < m {
        lemma_periods_fault_persists(ps, k, (m - 1) as nat);
    }
}

fn id_of(id: &Option<String>) -> (r: String)
    ensures
        r@ == id_or_placeholder(*id),
{
    match id {
        Some(s) => s.clone(),
        None => String::from_str("No ID"),
    }
}

fn expand_adaptation_set_exec(a: &AdaptationSet, p: &Period, start: u64) -> (r: Result<ExpandedAdaptationSet, ExpandError>)
    ensures
        match r {
            Ok(x) => expand_adaptation_set(*a, *p, start) == Ok::<AdaptationSetModel, Failure>(x@),
            Err(e) => expand_adaptation_set(*a, *p, start) == Err::<AdaptationSetModel, Failure>((e.kind, e.id@)),
        },
{
    let content_type = match content_type_of(&a.content_type) {
        Some(c) => c,
        None => return Err(ExpandError { kind: ParseError::AdaptationSetWithoutContentType, id: id_of(&a.id) }),
    };
    let n = a.representations.len();
    let mut representations: Vec<ExpandedRepresentation> = Vec::new();
    let mut i: usize = 0;
    assert(representations@.map_values(|r: ExpandedRepresentation| r@) =~= Seq::<RepresentationModel>::empty());
    while i < n
        invariant
            n == a.representations@.len(),
            content_type_spec(a.content_type) == Some(content_type),
            0 <= i <= n,
            expand_representations(*a, i as nat, *p, start)
                == Ok::<Seq<RepresentationModel>, Failure>(representations@.map_values(|r: ExpandedRepresentation| r@)),
        decreases n - i,
    {
        let rep = &a.representations[i];
        let description = match describe_representation(rep, a) {
            Ok(d) => d,
            Err(e) => {
                proof {
                    assert(*rep == a.representations@[i as int]);
                    assert(expand_representation(*rep, *a, *p, start) == Err::<RepresentationModel, Failure>((e, id_or_placeholder(rep.id))));
                    assert(expand_representations(*a, (i + 1) as nat, *p, start) == Err::<Seq<RepresentationModel>, Failure>((e, id_or_placeholder(rep.id))));
                    lemma_representations_fault_persists(*a, (i + 1) as nat, n as nat, *p, start);
                }
                return Err(ExpandError { kind: e, id: id_of(&rep.id) });
            },
        };
        let segments = match parse_segment_template(&rep.segment_template, &a.segment_template, &p.segment_template, start) {
            Ok(s) => s,
            Err(e) => {
                proof {
                    assert(*rep == a.representations@[i as int]);
                    assert(expand_representation(*rep, *a, *p, start) == Err::<RepresentationModel, Failure>((e, id_or_placeholder(rep.id))));
                    assert(expand_representations(*a, (i + 1) as nat, *p, start) == Err::<Seq<RepresentationModel>, Failure>((e, id_or_placeholder(rep.id))));
                    lemma_representations_fault_persists(*a, (i + 1) as nat, n as nat, *p, start);
                }
                return Err(ExpandError { kind: e, id: id_of(&rep.id) });
            },
        };
        let x = ExpandedRepresentation { description, segments };
        let ghost before = representations@;
        representations.push(x);
        proof {
            assert(representations@.map_values(|r: ExpandedRepresentation| r@)
                =~= before.map_values(|r: ExpandedRepresentation| r@).push(x@));
        }
        i = i + 1;
    }
    Ok(ExpandedAdaptationSet { content_type, representations })
}

fn expand_period_exec(p: &Period, previous_period_end_ms: u64) -> (r: Result<ExpandedPeriod, ExpandError>)
    ensures
        match r {
            Ok(x) => expand_period(*p, previous_period_end_ms) == Ok::<PeriodModel, Failure>(x@),
            Err(e) => expand_period(*p, previous_period_end_ms) == Err::<PeriodModel, Failure>((e.kind, e.id@)),
        },
{
    let start = match parse_period_start_ms(p, previous_period_end_ms) {
        Ok(s) => s,
        Err(e) => return Err(ExpandError { kind: e, id: id_of(&p.id) }),
    };
    let duration = match parse_period_duration_ms(p) {
        Ok(d) => d,
        Err(e) => return Err(ExpandError { kind: e, id: id_of(&p.id) }),
    };
    let n = p.adaptations.len();
    let mut adaptation_sets: Vec<ExpandedAdaptationSet> = Vec::new();
    let mut i: usize = 0;
    assert(adaptation_sets@.map_values(|a: ExpandedAdaptationSet| a@) =~= Seq::<AdaptationSetModel>::empty());
    while i < n
        invariant
            n == p.adaptations@.len(),
            declared_start_spec(*p, previous_period_end_ms) == Ok::<u64, ParseError>(start),
            declared_duration_spec(*p) == Ok::<Option<u64>, ParseError>(duration),
            0 <= i <= n,
            expand_adaptation_sets(*p, i as nat, start)
                == Ok::<Seq<AdaptationSetModel>, Failure>(adaptation_sets@.map_values(|a: ExpandedAdaptationSet| a@)),
        decreases n - i,
    {
        let x = match expand_adaptation_set_exec(&p.adaptations[i], p, start) {
            Ok(x) => x,
            Err(e) => {
                proof {
                    assert(expand_adaptation_sets(*p, (i + 1) as nat, start) == Err::<Seq<AdaptationSetModel>, Failure>((e.kind, e.id@)));
                    lemma_adaptation_sets_fault_persists(*p, (i + 1) as nat, n as nat, start);
                }
                return Err(e);
            },
        };
        let ghost before = adaptation_sets@;
        adaptation_sets.push(x);
        proof {
            assert(adaptation_sets@.map_values(|a: ExpandedAdaptationSet| a@)
                =~= before.map_values(|a: ExpandedAdaptationSet| a@).push(x@));
        }
        i = i + 1;
    }
    Ok(ExpandedPeriod { adaptation_sets, period_start_ms: start, period_duration_ms: duration, id: id_of(&p.id) })
}

impl ExpandedMpd {
    /// Expands a manifest into absolute milliseconds, period by period:
    /// each period without an explicit start begins where the segments of
    /// the one before it end. Fails on the first error met in document
    /// order, naming the entity where it happened.
    pub fn new(mpd: &Manifest) -> (r: Result<ExpandedMpd, ExpandError>)
        ensures
            match r {
                Ok(x) => expand_spec(*mpd) == Ok::<Seq<PeriodModel>, Failure>(x@),
                Err(e) => expand_spec(*mpd) == Err::<Seq<PeriodModel>, Failure>((e.kind, e.id@)),
            },
    {
        let n = mpd.periods.len();
        if n == 0 {
            return Err(ExpandError { kind: ParseError::MpdWithoutPeriods, id: String::from_str("MPD") });
        }
        let ghost ps = mpd.periods@;
        let mut periods: Vec<ExpandedPeriod> = Vec::new();
        let mut previous_period_end_ms: u64 = 0;
        let mut i: usize = 0;
        assert(periods@.map_values(|p: ExpandedPeriod| p@) =~= Seq::<PeriodModel>::empty());
        while i < n
            invariant
                ps == mpd.periods@,
                n == ps.len(),
                0 <= i <= n,
                expand_periods(ps, i as nat)
                    == Ok::<(Seq<PeriodModel>, u64), Failure>((periods@.map_values(|p: ExpandedPeriod| p@), previous_period_end_ms)),
            decreases n - i,
        {
            let period = match expand_period_exec(&mpd.periods[i], previous_period_end_ms) {
                Ok(x) => x,
                Err(e) => {
                    proof {
                        lemma_periods_fault_persists(ps, (i + 1) as nat, n as nat);
                    }
                    return Err(e);
                },
            };
            let end = match period.end_ms() {
                Ok(x) => x,
                Err(e) => {
                    proof {
                        lemma_periods_fault_persists(ps, (i + 1) as nat, n as nat);
                    }
                    return Err(ExpandError { kind: e, id: period.id });
                },
            };
            let ghost before = periods@;
            let ghost pm = period@;
            periods.push(period);
            proof {
                assert(periods@.map_values(|p: ExpandedPeriod| p@) =~= before.map_values(|p: ExpandedPeriod| p@).push(pm));
            }
            previous_period_end_ms = end;
            i = i + 1;
        }
        Ok(ExpandedMpd { periods })
    }
}

} // verus!
