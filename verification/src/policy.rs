//! Encoding policy: pure decisions from probed metadata and the request.
//!
//! Given the source duration and frame rate, the requested time range and
//! the requested output heights, the policy fixes the trimmed window, the
//! target frame rate and the optional output geometry. No I/O happens here.

use vstd::prelude::*;
use crate::frac::Frac;
use crate::frac::frac_lt;
use crate::frac::frac_zero;

verus! {

/// The encoding decisions for one export.
pub struct EncodingPlan {
    /// Effective trim start, clamped to be at least zero.
    pub start: Frac,
    /// Effective trim end, resolved against the source duration.
    pub end: Frac,
    /// Target frame rate, always in `[1, 30]`.
    pub fps: u32,
    /// Output height, when one of the prioritized heights was requested.
    pub height: Option<u32>,
}

/// A user-supplied export job description.
pub struct ExportRequest {
    /// Source media path.
    pub path: String,
    /// Requested trim start in seconds.
    pub start: Frac,
    /// Requested trim end in seconds; zero means "to the end of the source".
    pub end: Frac,
    /// Requested output heights.
    pub sizes: Vec<u32>,
    /// Display name of the resulting theme.
    pub name: String,
}

impl ExportRequest {
    pub open spec fn wf(self) -> bool {
        self.start.wf() && self.end.wf()
    }
}

/// The rational zero, as a spec value.
pub open spec fn zero_frac() -> Frac {
    Frac { neg: false, num: 0, den: 1 }
}

/// The requested start clamped to be at least zero.
pub open spec fn clamped_start(start: Frac) -> Frac {
    if start.is_neg() {
        zero_frac()
    } else {
        start
    }
}

/// The requested end raised to at least the clamped start.
pub open spec fn raised_end(start1: Frac, end: Frac) -> Frac {
    if end.lt(start1) {
        start1
    } else {
        end
    }
}

/// An end of zero, or one past the source duration, resolves to the
/// source duration.
pub open spec fn resolved_end(end1: Frac, duration: Frac) -> Frac {
    if end1.is_zero() || duration.lt(end1) {
        duration
    } else {
        end1
    }
}

/// The effective `(start, end)` window for a request against a source.
pub open spec fn window_spec(start: Frac, end: Frac, duration: Frac) -> (Frac, Frac) {
    let s1 = clamped_start(start);
    let e1 = raised_end(s1, end);
    (s1, resolved_end(e1, duration))
}

/// Effective trim window: clamp the start to zero, raise the end to the
/// start, and resolve a zero or past-the-end end to the source duration.
pub fn resolve_window(start: &Frac, end: &Frac, duration: &Frac) -> (r: (Frac, Frac))
    requires
        start.wf(),
        end.wf(),
        duration.wf(),
    ensures
        r == window_spec(*start, *end, *duration),
        r.0.wf(),
        r.1.wf(),
        !r.0.is_neg(),
{
    let s1 = if start.is_negative() {
        frac_zero()
    } else {
        *start
    };
    let e1 = if frac_lt(end, &s1) {
        s1
    } else {
        *end
    };
    let e2 = if e1.num == 0 || frac_lt(duration, &e1) {
        *duration
    } else {
        e1
    };
    (s1, e2)
}

proof fn lemma_div_small(a: int, b: int)
    by (nonlinear_arith)
    requires
        0 <= a < b,
    ensures
        a / b == 0,
{
}

/// The magnitude of a rational rounded to the nearest integer, half
/// rounded up.
pub open spec fn round_mag(f: Frac) -> int {
    (2 * f.num + f.den) as int / (2 * f.den) as int
}

/// The rational rounded to the nearest integer, half away from zero.
pub open spec fn round_frac(f: Frac) -> int {
    if f.is_neg() {
        -round_mag(f)
    } else {
        round_mag(f)
    }
}

/// The target frame rate: the source rate rounded to the nearest integer,
/// a rounded value of zero mapped to 30 (so an unknown rate still yields a
/// usable default), and the rest clamped to `[1, 30]`.
pub open spec fn fps_spec(f: Frac) -> int {
    let r = round_frac(f);
    if r == 0 {
        30
    } else if r < 1 {
        1
    } else if r > 30 {
        30
    } else {
        r
    }
}

/// Compute the target frame rate from the source frame rate.
pub fn target_fps(f: &Frac) -> (r: u32)
    requires
        f.wf(),
    ensures
        r == fps_spec(*f),
        1 <= r <= 30,
        f.num == 0 ==> r == 30,
{
    proof {
        if f.num == 0 {
            lemma_div_small(f.den as int, 2 * f.den as int);
        }
    }
    let q: u128 = (2 * (f.num as u128) + (f.den as u128)) / (2 * (f.den as u128));
    if f.is_negative() {
        if q == 0 {
            30
        } else {
            1
        }
    } else {
        if q == 0 {
            30
        } else if q > 30 {
            30
        } else {
            q as u32
        }
    }
}

/// The chosen output height: the highest requested height from the fixed
/// priority list 2160, 1440, 1080; other heights trigger no scaling.
pub open spec fn height_spec(s: Seq<u32>) -> Option<u32> {
    if s.contains(2160u32) {
        Some(2160u32)
    } else if s.contains(1440u32) {
        Some(1440u32)
    } else if s.contains(1080u32) {
        Some(1080u32)
    } else {
        None
    }
}

fn contains_val(v: &Vec<u32>, x: u32) -> (r: bool)
    ensures
        r == v@.contains(x),
{
    let n = v.len();
    let mut i: usize = 0;
    while i < n
        invariant
            i <= n == v@.len(),
            forall|j: int| 0 <= j < i ==> v@[j] != x,
        decreases n - i,
    {
        if v[i] == x {
            return true;
        }
        i += 1;
    }
    false
}

/// Choose the output height from the requested sizes.
pub fn choose_height(sizes: &Vec<u32>) -> (r: Option<u32>)
    ensures
        r == height_spec(sizes@),
{
    if contains_val(sizes, 2160) {
        Some(2160)
    } else if contains_val(sizes, 1440) {
        Some(1440)
    } else if contains_val(sizes, 1080) {
        Some(1080)
    } else {
        None
    }
}

/// Compute the full encoding plan for one export.
pub fn compute_plan(duration: &Frac, fps: &Frac, start: &Frac, end: &Frac, sizes: &Vec<u32>) -> (p:
    EncodingPlan)
    requires
        duration.wf(),
        fps.wf(),
        start.wf(),
        end.wf(),
    ensures
        (p.start, p.end) == window_spec(*start, *end, *duration),
        p.fps == fps_spec(*fps),
        1 <= p.fps <= 30,
        p.height == height_spec(sizes@),
        p.start.wf(),
        p.end.wf(),
        !p.start.is_neg(),
{
    let (s, e) = resolve_window(start, end, duration);
    EncodingPlan { start: s, end: e, fps: target_fps(fps), height: choose_height(sizes) }
}

/// Law: when the requested end is zero and the requested start does not
/// exceed zero, the policy resolves the end to the full source duration.
/// (A positive requested start first raises a zero end up to the start, so
/// the end then no longer reads as "to the end of source".)
pub proof fn lemma_end_zero_resolves_to_duration(start: Frac, end: Frac, duration: Frac)
    requires
        start.wf(),
        end.wf(),
        duration.wf(),
        end.is_zero(),
        start.is_neg() || start.is_zero(),
    ensures
        window_spec(start, end, duration).1 == duration,
{
    let s1 = clamped_start(start);
    assert(s1.num == 0);
    assert(end.lt(s1) == (end.snum() * s1.den < s1.snum() * end.den));
    assert(end.snum() == 0 && s1.snum() == 0);
    assert(0 * s1.den == 0) by (nonlinear_arith);
    assert(0 * end.den == 0) by (nonlinear_arith);
    assert(!end.lt(s1));
    assert(raised_end(s1, end) == end);
}

/// Law: for every well-formed source frame rate the target frame rate is
/// an integer in `[1, 30]`, and an unknown (zero) rate yields 30.
pub proof fn lemma_fps_always_in_range(f: Frac)
    requires
        f.wf(),
    ensures
        1 <= fps_spec(f) <= 30,
        f.num == 0 ==> fps_spec(f) == 30,
{
    if f.num == 0 {
        lemma_div_small(f.den as int, 2 * f.den as int);
    }
}

/// Law: when the request is sensible — the start lies between zero and the
/// source duration — the resolved window is ordered: the effective start
/// is at most the effective end, which is at most the source duration.
pub proof fn lemma_window_ordered(start: Frac, end: Frac, duration: Frac)
    requires
        start.wf(),
        end.wf(),
        duration.wf(),
        !start.is_neg(),
        start.le(duration),
    ensures
        window_spec(start, end, duration).0.le(window_spec(start, end, duration).1),
        window_spec(start, end, duration).1.le(duration),
{
    let s1 = clamped_start(start);
    let e1 = raised_end(s1, end);
    let e2 = resolved_end(e1, duration);
    assert(s1 == start);
    // reflexivity of the value ordering
    assert(duration.le(duration));
    assert(s1.le(s1));
    if e1.is_zero() || duration.lt(e1) {
        // the end resolves to the duration itself
        assert(e2 == duration);
        assert(s1.le(e2));
    } else {
        assert(e2 == e1);
        assert(e1.le(duration));
        if end.lt(s1) {
            assert(e1 == s1);
        } else {
            assert(s1.le(end));
        }
    }
}

/// Law: a requested-height set containing 2160 always chooses 2160, and
/// one containing none of the prioritized heights chooses nothing.
pub proof fn lemma_height_priority(s: Seq<u32>)
    ensures
        s.contains(2160u32) ==> height_spec(s) == Some(2160u32),
        !s.contains(2160u32) && !s.contains(1440u32) && !s.contains(1080u32) ==> height_spec(
            s,
        ).is_none(),
{
}

} // verus!

