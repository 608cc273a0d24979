//! The counting and classification behind deadband trend detection and breach
//! prediction: which readings form a window, how many times the direction of
//! change reverses within it, and what trend that makes.

use vstd::prelude::*;

verus! {

/// How many of the latest readings trend detection looks at.
pub const TREND_WINDOW: usize = 10;

/// How many of the latest readings breach prediction looks at.
pub const BREACH_WINDOW: usize = 5;

/// The direction of change from one reading to the next, where a change no
/// larger than the noise floor counts as level.
#[derive(Debug, Clone, Copy, PartialEq, Eq, Structural)]
pub enum Step {
    Rising,
    Falling,
    Level,
}

/// The shape of the recent history of a deadband.
#[derive(Debug, Clone, Copy, PartialEq, Eq, Structural)]
pub enum TrendShape {
    /// No significant change.
    Stable,
    /// Slow monotonic change.
    Drifting,
    /// The direction reverses at least twice in the window.
    Oscillating,
    /// The drift exceeds half of the band.
    Diverging,
}

/// Two neighbouring steps go opposite ways.
pub open spec fn reverses(a: Step, b: Step) -> bool {
    (a is Rising && b is Falling) || (a is Falling && b is Rising)
}

/// The number of neighbouring pairs of steps that go opposite ways.
pub open spec fn sign_changes(steps: Seq<Step>) -> nat
    decreases steps.len(),
{
    if steps.len() < 2 {
        0
    } else {
        sign_changes(steps.drop_last()) + if reverses(steps[steps.len() - 2], steps.last()) {
            1nat
        } else {
            0nat
        }
    }
}

/// The trend of a window of `readings` readings: too few readings (under
/// three) are stable; two or more reversals oscillate; otherwise a drift beyond
/// half the band diverges, a drift beyond the noise floor drifts, and anything
/// else is stable.
pub open spec fn trend_of(readings: nat, reversals: nat, beyond_half_band: bool, beyond_noise: bool) -> TrendShape {
    if readings < 3 {
        TrendShape::Stable
    } else if reversals >= 2 {
        TrendShape::Oscillating
    } else if beyond_half_band {
        TrendShape::Diverging
    } else if beyond_noise {
        TrendShape::Drifting
    } else {
        TrendShape::Stable
    }
}

/// The first index of the window of the latest `size` readings out of `len`.
pub open spec fn window_start_of(len: nat, size: nat) -> nat {
    if len <= size {
        0
    } else {
        (len - size) as nat
    }
}

/// Counts the reversals of direction among the steps.
pub fn count_sign_changes(steps: &Vec<Step>) -> (n: u32)
    requires
        steps@.len() <= u32::MAX,
    ensures
        n == sign_changes(steps@),
{
    let mut n: u32 = 0;
    let mut i: usize = 1;
    if steps.len() < 2 {
        return 0;
    }
    while i < steps.len()
        invariant
            1 <= i <= steps@.len(),
            steps@.len() <= u32::MAX,
            n == sign_changes(steps@.subrange(0, i as int)),
            n < i,
        decreases steps.len() - i,
    {
        let a = steps[i - 1];
        let b = steps[i];
        let flip: bool = match (a, b) {
            (Step::Rising, Step::Falling) | (Step::Falling, Step::Rising) => true,
            _ => false,
        };
        proof {
            let next = steps@.subrange(0, i as int + 1);
            assert(next.drop_last() =~= steps@.subrange(0, i as int));
            assert(next[next.len() - 2] == a);
            assert(next.last() == b);
            if i == 1 {
                assert(sign_changes(steps@.subrange(0, 1)) == 0);
            }
        }
        if flip {
            n = n + 1;
        }
        i = i + 1;
    }
    assert(steps@.subrange(0, steps@.len() as int) =~= steps@);
    n
}

/// The trend of a window of `readings` readings whose steps are `steps`.
pub fn classify_trend(readings: usize, steps: &Vec<Step>, beyond_half_band: bool, beyond_noise: bool) -> (r: TrendShape)
    requires
        steps@.len() <= u32::MAX,
    ensures
        r == trend_of(readings as nat, sign_changes(steps@), beyond_half_band, beyond_noise),
{
    if readings < 3 {
        return TrendShape::Stable;
    }
    let reversals = count_sign_changes(steps);
    if reversals >= 2 {
        TrendShape::Oscillating
    } else if beyond_half_band {
        TrendShape::Diverging
    } else if beyond_noise {
        TrendShape::Drifting
    } else {
        TrendShape::Stable
    }
}

/// The first index of the window of the latest `size` readings out of `len`.
pub fn window_start(len: usize, size: usize) -> (r: usize)
    ensures
        r == window_start_of(len as nat, size as nat),
{
    if len <= size {
        0
    } else {
        len - size
    }
}

/// The first and last index of the readings that breach prediction fits a
/// rate to, or `None` when there are fewer than two readings.
pub fn breach_window(len: usize) -> (r: Option<(usize, usize)>)
    ensures
        len < 2 ==> r is None,
        len >= 2 ==> r == Some((window_start_of(len as nat, BREACH_WINDOW as nat) as usize, (len - 1) as usize)),
        r matches Some((first, last)) ==> last == len - 1 && last - first + 1 == (if len < BREACH_WINDOW {
            len as int
        } else {
            BREACH_WINDOW as int
        }),
{
    if len < 2 {
        None
    } else {
        Some((window_start(len, BREACH_WINDOW), len - 1))
    }
}

/// The number of ticks between the first and last reading of a window, or
/// `None` when they fall on the same tick and no rate can be fitted.
pub fn tick_span(first: u64, last: u64) -> (r: Option<u64>)
    requires
        first <= last,
    ensures
        last == first ==> r is None,
        last > first ==> r == Some((last - first) as u64),
{
    if last > first {
        Some(last - first)
    } else {
        None
    }
}

/// Two or more reversals of direction in a window of at least three readings
/// make it oscillate, whatever the net drift; the drift decides only when the
/// direction reverses at most once, and fewer than three readings are stable.
pub proof fn lemma_trend_rules(readings: nat, reversals: nat, beyond_half_band: bool, beyond_noise: bool)
    ensures
        readings < 3 ==> trend_of(readings, reversals, beyond_half_band, beyond_noise)
            == TrendShape::Stable,
        readings >= 3 && reversals >= 2 ==> trend_of(readings, reversals, beyond_half_band, beyond_noise)
            == TrendShape::Oscillating,
        readings >= 3 && reversals < 2 && beyond_half_band ==> trend_of(
            readings,
            reversals,
            beyond_half_band,
            beyond_noise,
        ) == TrendShape::Diverging,
        readings >= 3 && reversals < 2 && !beyond_half_band && beyond_noise ==> trend_of(
            readings,
            reversals,
            beyond_half_band,
            beyond_noise,
        ) == TrendShape::Drifting,
        readings >= 3 && reversals < 2 && !beyond_half_band && !beyond_noise ==> trend_of(
            readings,
            reversals,
            beyond_half_band,
            beyond_noise,
        ) == TrendShape::Stable,
{
}

/// A window that rises, falls, rises ... reverses at every inner step: steps
/// that alternate between rising and falling count one reversal per
/// neighbouring pair.
pub proof fn lemma_alternating_steps_reverse(steps: Seq<Step>)
    requires
        forall|i: int| 0 <= i < steps.len() ==> !(#[trigger] steps[i] is Level),
        forall|i: int| 0 < i < steps.len() ==> #[trigger] steps[i] != steps[i - 1],
    ensures
        steps.len() >= 1 ==> sign_changes(steps) == steps.len() - 1,
    decreases steps.len(),
{
    if steps.len() >= 2 {
        let init = steps.drop_last();
        assert forall|i: int| 0 <= i < init.len() implies !(#[trigger] init[i] is Level) by {
            assert(init[i] == steps[i]);
        }
        assert forall|i: int| 0 < i < init.len() implies #[trigger] init[i] != init[i - 1] by {
            assert(init[i] == steps[i] && init[i - 1] == steps[i - 1]);
        }
        lemma_alternating_steps_reverse(init);
        let a = steps[steps.len() - 2];
        let b = steps[steps.len() - 1];
        assert(!(a is Level) && !(b is Level) && a != b);
    }
}

/// The window of the latest `size` readings out of `len`: it starts at
/// `len - size` when there are more than `size` readings and at 0 otherwise,
/// holds `min(len, size)` readings, and ends at the last reading.
pub proof fn lemma_window_is_latest(len: nat, size: nat)
    ensures
        window_start_of(len, size) <= len,
        len > size ==> window_start_of(len, size) + size == len,
        len <= size ==> window_start_of(len, size) == 0,
        len - window_start_of(len, size) == (if len < size {
            len
        } else {
            size
        }),
{
}

/// Steps that never fall (or never rise) do not reverse, and a level step
/// reverses with neither neighbour: there are never more reversals than
/// neighbouring pairs.
pub proof fn lemma_reversals_need_both_directions(steps: Seq<Step>)
    ensures
        (forall|i: int| 0 <= i < steps.len() ==> !(#[trigger] steps[i] is Falling))
            ==> sign_changes(steps) == 0,
        (forall|i: int| 0 <= i < steps.len() ==> !(#[trigger] steps[i] is Rising))
            ==> sign_changes(steps) == 0,
        steps.len() >= 1 ==> sign_changes(steps) <= steps.len() - 1,
    decreases steps.len(),
{
    if steps.len() >= 2 {
        let init = steps.drop_last();
        lemma_reversals_need_both_directions(init);
        if forall|i: int| 0 <= i < steps.len() ==> !(#[trigger] steps[i] is Falling) {
            assert forall|i: int| 0 <= i < init.len() implies !(#[trigger] init[i] is Falling) by {
                assert(init[i] == steps[i]);
            }
            assert(!(steps[steps.len() - 1] is Falling) && !(steps[steps.len() - 2] is Falling));
        }
        if forall|i: int| 0 <= i < steps.len() ==> !(#[trigger] steps[i] is Rising) {
            assert forall|i: int| 0 <= i < init.len() implies !(#[trigger] init[i] is Rising) by {
                assert(init[i] == steps[i]);
            }
            assert(!(steps[steps.len() - 1] is Rising) && !(steps[steps.len() - 2] is Rising));
        }
    }
}

} // verus!
