use vstd::prelude::*;

verus! {

/// The tick value that containers use for a timestamp or a duration they do
/// not know.
pub const NO_TIMESTAMP: i64 = i64::MIN;

/// Ticks per second of the fixed time base in which a container states its
/// own duration.
pub const TICKS_PER_SECOND: i64 = 1000000;

/// A rational number `num / den` as containers store time bases and
/// aspect ratios. A zero denominator marks the value as undefined.
#[derive(Clone, Copy, Debug, PartialEq, Eq, Structural)]
pub struct Rational {
    pub num: i32,
    pub den: i32,
}

impl Rational {
    /// Whether the ratio has a value, that is whether its denominator is nonzero.
    pub fn is_defined(&self) -> (r: bool)
        ensures
            r == (self.den != 0),
    {
        self.den != 0
    }
}

/// A length of time in seconds, kept as an exact fraction, or unknown.
#[derive(Clone, Copy, Debug, PartialEq, Eq, Structural)]
pub enum Span {
    Unknown,
    /// `num / den` seconds; `den` is positive.
    Seconds { num: i128, den: i64 },
}

impl Span {
    /// Whether the span is the fraction `n / d` (with `d` nonzero) of seconds.
    pub open spec fn denotes(self, n: int, d: int) -> bool {
        match self {
            Span::Unknown => false,
            Span::Seconds { num, den } => den > 0 && num * d == n * den,
        }
    }
}

/// The span of a stream's `ticks`, counted in units of `time_base` seconds.
pub open spec fn stream_span(ticks: i64, time_base: Rational) -> Span {
    if ticks == NO_TIMESTAMP || time_base.den == 0 {
        Span::Unknown
    } else if time_base.den > 0 {
        Span::Seconds { num: (ticks * time_base.num) as i128, den: time_base.den as i64 }
    } else {
        Span::Seconds { num: (-(ticks * time_base.num)) as i128, den: -time_base.den as i64 }
    }
}

/// The span of a container's own duration, `ticks` in units of one
/// millionth of a second.
pub open spec fn container_span(ticks: i64) -> Span {
    if ticks == NO_TIMESTAMP {
        Span::Unknown
    } else {
        Span::Seconds { num: ticks as i128, den: TICKS_PER_SECOND }
    }
}

/// Converts a container duration in ticks to seconds; the unknown marker
/// stays unknown.
pub fn container_duration(ticks: i64) -> (r: Span)
    ensures
        r == container_span(ticks),
{
    if ticks == NO_TIMESTAMP {
        Span::Unknown
    } else {
        Span::Seconds { num: ticks as i128, den: TICKS_PER_SECOND }
    }
}

/// Converts a stream duration or timestamp in ticks of `time_base` to
/// seconds. The unknown marker, and a time base with a zero denominator,
/// give an unknown span.
pub fn stream_duration(ticks: i64, time_base: Rational) -> (r: Span)
    ensures
        r == stream_span(ticks, time_base),
{
    if ticks == NO_TIMESTAMP || time_base.den == 0 {
        Span::Unknown
    } else {
        assert(-0x8000_0000_0000_0000 * 0x8000_0000 <= ticks * time_base.num
            <= 0x8000_0000_0000_0000 * 0x8000_0000) by (nonlinear_arith)
            requires
                -0x8000_0000_0000_0000 <= ticks < 0x8000_0000_0000_0000,
                -0x8000_0000 <= time_base.num < 0x8000_0000,
        ;
        let product: i128 = (ticks as i128) * (time_base.num as i128);
        if time_base.den > 0 {
            Span::Seconds { num: product, den: time_base.den as i64 }
        } else {
            Span::Seconds { num: -product, den: -(time_base.den as i64) }
        }
    }
}

/// A known container duration is exactly its tick count divided by the ticks
/// per second; an unknown one is reported as unknown, never as zero.
pub proof fn lemma_container_duration_exact(ticks: i64)
    ensures
        ticks != NO_TIMESTAMP ==> container_span(ticks).denotes(ticks as int, TICKS_PER_SECOND as int),
        ticks == NO_TIMESTAMP ==> container_span(ticks) == Span::Unknown,
{
}

/// A known stream duration is exactly its tick count times the time base;
/// an unknown one, or one over an undefined time base, is reported as unknown.
pub proof fn lemma_stream_duration_exact(ticks: i64, time_base: Rational)
    ensures
        ticks != NO_TIMESTAMP && time_base.den != 0 ==> stream_span(ticks, time_base).denotes(
            ticks * time_base.num,
            time_base.den as int,
        ),
        ticks == NO_TIMESTAMP || time_base.den == 0 ==> stream_span(ticks, time_base)
            == Span::Unknown,
{
    if ticks != NO_TIMESTAMP && time_base.den != 0 {
        let p = ticks * time_base.num;
        assert(-0x8000_0000_0000_0000 * 0x8000_0000 <= p <= 0x8000_0000_0000_0000 * 0x8000_0000)
            by (nonlinear_arith)
            requires
                p == ticks * time_base.num,
                -0x8000_0000_0000_0000 <= ticks < 0x8000_0000_0000_0000,
                -0x8000_0000 <= time_base.num < 0x8000_0000,
        ;
        if time_base.den < 0 {
            assert((-p) * time_base.den == p * (-time_base.den)) by (nonlinear_arith);
        }
    }
}

} // verus!
