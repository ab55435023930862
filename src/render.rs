use vstd::prelude::*;

use crate::error::ParseError;
use crate::expanded::{
    mpd_end, mpd_start, period_end, period_start, AdaptationSetModel, Expanded, ExpandedMpd, ExpandedPeriod, PeriodModel,
};
use crate::text::{decimal, push_decimal};

verus! {

/// Pixels per second of media time.
pub const SCALE: u32 = 40;

/// Height of the marker drawn for a gap before a period's segments.
pub const GAP_SIZE: u32 = 50;

pub const ADAPTATION_SET_PADDING: u32 = 0;

pub const ADAPTATION_SET_SPACING: u32 = 20;

pub const REPRESENTATION_WIDTH: u32 = 40;

pub const REPRESENTATION_PADDING: u32 = 5;

/// Longest manifest, in milliseconds, that is drawn.
pub const MAX_RENDER_DURATION_MS: u64 = 600_000;

/// The colours of the drawing.
#[derive(Debug, Clone, Copy, PartialEq, Eq, Structural)]
pub enum Color {
    AudioSegmentOdd,
    AudioSegmentEvent,
    AudioAdaptationBorder,
    VideoSegmentOdd,
    VideoSegmentEven,
    VideoAdaptationBorder,
    Blue,
}

pub open spec fn color_rgba(c: Color) -> (u8, u8, u8, u8) {
    match c {
        Color::AudioSegmentOdd => (144, 190, 109, 255),
        Color::AudioSegmentEvent => (169, 204, 142, 255),
        Color::AudioAdaptationBorder => (0, 255, 0, 255),
        Color::VideoSegmentOdd => (39, 125, 161, 255),
        Color::VideoSegmentEven => (47, 151, 196, 255),
        Color::VideoAdaptationBorder => (255, 0, 0, 255),
        Color::Blue => (0, 0, 255, 255),
    }
}

impl Color {
    /// The colour as red, green, blue and alpha.
    pub fn to_rgba(self) -> (r: (u8, u8, u8, u8))
        ensures
            r == color_rgba(self),
    {
        match self {
            Color::AudioSegmentOdd => (144, 190, 109, 255),
            Color::AudioSegmentEvent => (169, 204, 142, 255),
            Color::AudioAdaptationBorder => (0, 255, 0, 255),
            Color::VideoSegmentOdd => (39, 125, 161, 255),
            Color::VideoSegmentEven => (47, 151, 196, 255),
            Color::VideoAdaptationBorder => (255, 0, 0, 255),
            Color::Blue => (0, 0, 255, 255),
        }
    }
}

/// Pixels for `ms` milliseconds at `scale` pixels per second, truncated.
pub fn ms_to_pixels(ms: u64, scale: u32) -> (r: u32)
    requires
        ms as int * scale as int / 1000 <= u32::MAX,
    ensures
        r as int == ms as int * scale as int / 1000,
{
    let p: u128 = (ms as u128) * (scale as u128) / 1000;
    p as u32
}

/// Height of a period's drawing: its computed extent in pixels, plus the
/// gap marker when its segments start after its declared start.
pub open spec fn period_height_spec(p: PeriodModel) -> Option<u32> {
    match (period_start(p), period_end(p)) {
        (Ok(s), Ok(e)) => if e < s {
            None
        } else {
            let h = (e - s) * SCALE / 1000 + if s > p.period_start_ms { GAP_SIZE as int } else { 0 };
            if h > u32::MAX {
                None
            } else {
                Some(h as u32)
            }
        },
        _ => None,
    }
}

/// The height of `period`'s drawing in pixels; `None` when it has no
/// extent, ends before it starts, or is too tall to draw.
pub fn get_period_height(period: &ExpandedPeriod) -> (r: Option<u32>)
    ensures
        r == period_height_spec(period@),
{
    let s = match period.start_ms() {
        Ok(x) => x,
        Err(_) => return None,
    };
    let e = match period.end_ms() {
        Ok(x) => x,
        Err(_) => return None,
    };
    if e < s {
        return None;
    }
    let span: u128 = (e - s) as u128;
    assert(span * 40 <= u64::MAX * 40) by (nonlinear_arith)
        requires
            span <= u64::MAX,
    ;
    let px: u128 = span * SCALE as u128 / 1000;
    let gap: u128 = if s > period.period_start_ms { GAP_SIZE as u128 } else { 0 };
    if px + gap > u32::MAX as u128 {
        return None;
    }
    Some((px + gap) as u32)
}

/// Width of the columns of the first `n` adaptation sets, spacing included.
pub open spec fn columns_width(sets: Seq<AdaptationSetModel>, n: nat) -> int
    decreases n,
{
    if n == 0 {
        0
    } else {
        columns_width(sets, (n - 1) as nat) + 2 * ADAPTATION_SET_PADDING + sets[n - 1].representations.len() * (
        REPRESENTATION_WIDTH + REPRESENTATION_PADDING) + ADAPTATION_SET_SPACING
    }
}

/// Width of a period's drawing: one column per representation, without
/// the spacing after the last adaptation set and the padding after the
/// last representation.
pub open spec fn period_width_spec(p: PeriodModel) -> Option<u32> {
    let w = columns_width(p.adaptation_sets, p.adaptation_sets.len()) - ADAPTATION_SET_SPACING - REPRESENTATION_PADDING;
    if w < 0 || w > u32::MAX {
        None
    } else {
        Some(w as u32)
    }
}

proof fn lemma_columns_width_grows(sets: Seq<AdaptationSetModel>, k: nat, n: nat)
    requires
        k <= n,
    ensures
        columns_width(sets, k) <= columns_width(sets, n),
    decreases n - k,
{
    if k < n {
        lemma_columns_width_grows(sets, k, (n - 1) as nat);
    }
}

/// The width of `period`'s drawing in pixels; `None` when it has no column
/// or is too wide to draw.
pub fn get_period_width(period: &ExpandedPeriod) -> (r: Option<u32>)
    ensures
        r == period_width_spec(period@),
{
    let ghost sets = period@.adaptation_sets;
    let n = period.adaptation_sets.len();
    let limit: u64 = u32::MAX as u64 + (ADAPTATION_SET_SPACING + REPRESENTATION_PADDING) as u64;
    let mut width: u64 = 0;
    let mut i: usize = 0;
    while i < n
        invariant
            sets == period@.adaptation_sets,
            n == sets.len(),
            0 <= i <= n,
            width as int == columns_width(sets, i as nat),
            width <= limit,
            limit == 4294967320,
        decreases n - i,
    {
        let reps = period.adaptation_sets[i].representations.len();
        assert(sets[i as int].representations.len() == reps);
        assert(columns_width(sets, (i + 1) as nat) == width + reps * 45 + 20);
        if reps as u64 > limit {
            proof {
                assert(columns_width(sets, (i + 1) as nat) > limit) by (nonlinear_arith)
                    requires
                        columns_width(sets, (i + 1) as nat) >= reps * 45,
                        reps > limit,
                ;
                lemma_columns_width_grows(sets, (i + 1) as nat, n as nat);
                assert(columns_width(sets, n as nat) > limit);
                assert(period_width_spec(period@) is None);
            }
            return None;
        }
        assert(reps * 45 <= limit * 45) by (nonlinear_arith)
            requires
                reps <= limit,
        ;
        let column: u64 = (REPRESENTATION_WIDTH + REPRESENTATION_PADDING) as u64;
        assert(column == 45);
        let add: u64 = 2 * ADAPTATION_SET_PADDING as u64 + reps as u64 * column + ADAPTATION_SET_SPACING as u64;
        if width + add > limit {
            proof {
                lemma_columns_width_grows(sets, (i + 1) as nat, n as nat);
            }
            return None;
        }
        width = width + add;
        i = i + 1;
    }
    if width < (ADAPTATION_SET_SPACING + REPRESENTATION_PADDING) as u64 {
        return None;
    }
    Some((width - (ADAPTATION_SET_SPACING + REPRESENTATION_PADDING) as u64) as u32)
}

/// How long a manifest lasts when it is short enough to draw: the time
/// from the start of its first period to the end of its last one, or
/// `None` when that is negative or longer than the ceiling.
pub open spec fn render_duration_spec(ps: Seq<PeriodModel>) -> Result<Option<u64>, ParseError> {
    match mpd_start(ps) {
        Err(e) => Err(e),
        Ok(s) => match mpd_end(ps) {
            Err(e) => Err(e),
            Ok(e) => if e < s || e - s > MAX_RENDER_DURATION_MS {
                Ok(None)
            } else {
                Ok(Some((e - s) as u64))
            },
        },
    }
}

/// The duration of `mpd` if the renderer accepts it.
pub fn render_duration_ms(mpd: &ExpandedMpd) -> (r: Result<Option<u64>, ParseError>)
    ensures
        r == render_duration_spec(mpd@),
{
    let s = mpd.start_ms()?;
    let e = mpd.end_ms()?;
    if e < s || e - s > MAX_RENDER_DURATION_MS {
        Ok(None)
    } else {
        Ok(Some(e - s))
    }
}

pub const MS_PER_YEAR: u64 = 1000 * 60 * 60 * 24 * 365;

pub const MS_PER_MONTH: u64 = 1000 * 60 * 60 * 24 * 30;

pub const MS_PER_DAY: u64 = 1000 * 60 * 60 * 24;

pub const MS_PER_HOUR: u64 = 1000 * 60 * 60;

pub const MS_PER_MINUTE: u64 = 1000 * 60;

/// `part` added after `acc`, separated by a space when `acc` is not empty.
pub open spec fn add_part(acc: Seq<char>, part: Seq<char>) -> Seq<char> {
    if acc.len() == 0 {
        part
    } else {
        acc + " "@ + part
    }
}

/// `n` followed by `unit` added after `acc` when `n` is not zero.
pub open spec fn add_unit(acc: Seq<char>, n: nat, unit: Seq<char>) -> Seq<char> {
    if n > 0 {
        add_part(acc, decimal(n) + unit)
    } else {
        acc
    }
}

/// A duration in words: years, 30-day months, days, hours and minutes that
/// are not zero, then `"<s>.<ms>ms"` when there are whole seconds, else
/// `"<ms>ms"` when there are milliseconds left.
pub open spec fn format_duration_spec(ms: nat) -> Seq<char> {
    let years = ms / MS_PER_YEAR as nat;
    let r1 = ms % MS_PER_YEAR as nat;
    let months = r1 / MS_PER_MONTH as nat;
    let r2 = r1 % MS_PER_MONTH as nat;
    let days = r2 / MS_PER_DAY as nat;
    let r3 = r2 % MS_PER_DAY as nat;
    let hours = r3 / MS_PER_HOUR as nat;
    let r4 = r3 % MS_PER_HOUR as nat;
    let minutes = r4 / MS_PER_MINUTE as nat;
    let r5 = r4 % MS_PER_MINUTE as nat;
    let seconds = r5 / 1000;
    let rest = r5 % 1000;
    let acc = add_unit(add_unit(add_unit(add_unit(add_unit(Seq::empty(), years, "yr"@), months, "mo"@), days, "day"@), hours, "hr"@), minutes, "min"@);
    if seconds > 0 {
        add_part(acc, decimal(seconds) + "."@ + decimal(rest) + "ms"@)
    } else if rest > 0 {
        add_part(acc, decimal(rest) + "ms"@)
    } else {
        acc
    }
}

fn push_separator(s: &mut String)
    ensures
        old(s)@.len() == 0 ==> final(s)@ == old(s)@,
        old(s)@.len() > 0 ==> final(s)@ == old(s)@ + " "@,
{
    if s.as_str().unicode_len() > 0 {
        s.append(" ");
    }
}

fn push_unit(s: &mut String, n: u64, unit: &str)
    ensures
        final(s)@ == add_unit(old(s)@, n as nat, unit@),
{
    if n > 0 {
        push_separator(s);
        push_decimal(s, n);
        s.append(unit);
        proof {
            assert(final(s)@ =~= add_unit(old(s)@, n as nat, unit@));
        }
    }
}

/// Writes a duration in words, as `format_duration_spec` says.
pub fn format_duration(duration_ms: u64) -> (r: String)
    ensures
        r@ == format_duration_spec(duration_ms as nat),
{
    let years = duration_ms / MS_PER_YEAR;
    let r1 = duration_ms % MS_PER_YEAR;
    let months = r1 / MS_PER_MONTH;
    let r2 = r1 % MS_PER_MONTH;
    let days = r2 / MS_PER_DAY;
    let r3 = r2 % MS_PER_DAY;
    let hours = r3 / MS_PER_HOUR;
    let r4 = r3 % MS_PER_HOUR;
    let minutes = r4 / MS_PER_MINUTE;
    let r5 = r4 % MS_PER_MINUTE;
    let seconds = r5 / 1000;
    let rest = r5 % 1000;
    let mut s = String::new();
    push_unit(&mut s, years, "yr");
    push_unit(&mut s, months, "mo");
    push_unit(&mut s, days, "day");
    push_unit(&mut s, hours, "hr");
    push_unit(&mut s, minutes, "min");
    let ghost acc = s@;
    if seconds > 0 {
        push_separator(&mut s);
        push_decimal(&mut s, seconds);
        s.append(".");
        push_decimal(&mut s, rest);
        s.append("ms");
        proof {
            assert(s@ =~= add_part(acc, decimal(seconds as nat) + "."@ + decimal(rest as nat) + "ms"@));
        }
    } else if rest > 0 {
        push_separator(&mut s);
        push_decimal(&mut s, rest);
        s.append("ms");
        proof {
            assert(s@ =~= add_part(acc, decimal(rest as nat) + "ms"@));
        }
    }
    s
}

} // verus!
