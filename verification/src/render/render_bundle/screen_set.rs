//! Display state of screen sets (labels and markers drawn in screen space).
//!
//! A screen set that overlaps an already displayed one is hidden, if it asks to be; hiding and
//! showing fade the set out and in over its animation duration. Times are nanoseconds on a
//! monotonic clock, counted from a reference instant chosen by the caller; durations are
//! nanoseconds.

use vstd::prelude::*;

verus! {

/// Display state of a screen set.
#[derive(Debug, Copy, Clone, PartialEq, Eq, Structural)]
pub enum RenderSetState {
    /// Not displayed.
    Hidden,
    /// Appearing since `start_time`.
    FadingIn { start_time: i64 },
    /// Fully displayed.
    Displayed,
    /// Disappearing since `start_time`.
    FadingOut { start_time: i64 },
}

/// Time passed from `start` to `now`, zero when `start` is later than `now` (the difference
/// of two instants saturates at zero).
pub open spec fn elapsed(now: int, start: int) -> int {
    if now >= start {
        now - start
    } else {
        0
    }
}

/// Start of a fade in the opposite direction that continues a fade started at `start`: the
/// part of the new fade already done equals the part of the old one still to do.
pub open spec fn reversed_start(now: int, start: int, animation_duration: int) -> int {
    now + elapsed(now, start) - animation_duration
}

/// Reversing a fade at `now` is defined in `i64` time: the intermediate instant and the result
/// fit.
pub open spec fn reversal_defined(now: int, start: int, animation_duration: int) -> bool {
    &&& now + elapsed(now, start) <= i64::MAX
    &&& i64::MIN <= reversed_start(now, start, animation_duration)
}

/// The state after the set is found to overlap a displayed set and is to be hidden: `None`
/// when it is hidden already (it is then not drawn at all), a fade-out that continues a
/// fade-in, a fade-out from now for a displayed set, and no change for a set fading out.
pub open spec fn hidden_state(state: RenderSetState, now: int, animation_duration: int) -> Option<
    RenderSetState,
> {
    match state {
        RenderSetState::Hidden => None,
        RenderSetState::FadingIn { start_time } => Some(
            RenderSetState::FadingOut {
                start_time: reversed_start(now, start_time as int, animation_duration) as i64,
            },
        ),
        RenderSetState::Displayed => Some(RenderSetState::FadingOut { start_time: now as i64 }),
        RenderSetState::FadingOut { .. } => Some(state),
    }
}

/// The state after the set is found free to be displayed: a fade-in from now for a hidden set,
/// a fade-in that continues a fade-out, and no change otherwise.
pub open spec fn shown_state(state: RenderSetState, now: int, animation_duration: int) -> RenderSetState {
    match state {
        RenderSetState::Hidden => RenderSetState::FadingIn { start_time: now as i64 },
        RenderSetState::FadingOut { start_time } => RenderSetState::FadingIn {
            start_time: reversed_start(now, start_time as int, animation_duration) as i64,
        },
        _ => state,
    }
}

/// Whether the state needs reversing a fade, and that reversal is defined.
pub open spec fn reversal_ok(state: RenderSetState, now: int, animation_duration: int) -> bool {
    match state {
        RenderSetState::FadingIn { start_time } => reversal_defined(
            now,
            start_time as int,
            animation_duration,
        ),
        RenderSetState::FadingOut { start_time } => reversal_defined(
            now,
            start_time as int,
            animation_duration,
        ),
        _ => true,
    }
}

/// Nanoseconds in a millisecond; fades are measured in whole milliseconds.
pub const NANOS_PER_MILLI: u64 = 1_000_000;

/// Whether a fade that has run for `elapsed` of its `animation_duration` is over: at once for a
/// zero duration; otherwise once the whole milliseconds elapsed reach the whole milliseconds of
/// the duration, and at least one has elapsed.
pub open spec fn fade_over(elapsed: int, animation_duration: int) -> bool {
    ||| animation_duration == 0
    ||| elapsed / 1_000_000 >= animation_duration / 1_000_000 && elapsed / 1_000_000 > 0
}

/// The state once a fade that is over has ended: a fade-in becomes displayed and a fade-out
/// hidden; any other state stays.
pub open spec fn settled_state(state: RenderSetState, now: int, animation_duration: int) -> RenderSetState {
    match state {
        RenderSetState::FadingIn { start_time } => if fade_over(
            elapsed(now, start_time as int),
            animation_duration,
        ) {
            RenderSetState::Displayed
        } else {
            state
        },
        RenderSetState::FadingOut { start_time } => if fade_over(
            elapsed(now, start_time as int),
            animation_duration,
        ) {
            RenderSetState::Hidden
        } else {
            state
        },
        _ => state,
    }
}

/// Time passed from `start` to `now`, saturating at zero.
pub fn elapsed_nanos(now: i64, start: i64) -> (e: u64)
    ensures
        e == elapsed(now as int, start as int),
{
    if now >= start {
        (now as i128 - start as i128) as u64
    } else {
        0
    }
}

fn reverse(now: i64, start: i64, animation_duration: u64) -> (r: i64)
    requires
        reversal_defined(now as int, start as int, animation_duration as int),
    ensures
        r == reversed_start(now as int, start as int, animation_duration as int),
{
    let e = elapsed_nanos(now, start);
    (now as i128 + e as i128 - animation_duration as i128) as i64
}

impl RenderSetState {
    /// Whether the set is (being) displayed: fading in or fully displayed.
    pub fn is_displayed(&self) -> (r: bool)
        ensures
            r == (*self is FadingIn || *self is Displayed),
    {
        match self {
            RenderSetState::FadingIn { .. } | RenderSetState::Displayed => true,
            _ => false,
        }
    }

    /// Whether the fade of this state can be reversed at `now` within `i64` time (a state that
    /// is not fading needs no reversal).
    pub fn reversal_fits(&self, now: i64, animation_duration: u64) -> (r: bool)
        ensures
            r == reversal_ok(*self, now as int, animation_duration as int),
    {
        let start = match self {
            RenderSetState::FadingIn { start_time } => *start_time,
            RenderSetState::FadingOut { start_time } => *start_time,
            _ => {
                return true;
            },
        };
        let shifted: i128 = now as i128 + elapsed_nanos(now, start) as i128;
        shifted <= i64::MAX as i128 && shifted - animation_duration as i128 >= i64::MIN as i128
    }

    /// The state of a set that overlaps a displayed set and is hidden on overlay.
    pub fn when_overlapping(self, now: i64, animation_duration: u64) -> (r: Option<RenderSetState>)
        requires
            reversal_ok(self, now as int, animation_duration as int),
        ensures
            r == hidden_state(self, now as int, animation_duration as int),
    {
        match self {
            RenderSetState::Hidden => None,
            RenderSetState::FadingIn { start_time } => Some(
                RenderSetState::FadingOut {
                    start_time: reverse(now, start_time, animation_duration),
                },
            ),
            RenderSetState::Displayed => Some(RenderSetState::FadingOut { start_time: now }),
            RenderSetState::FadingOut { .. } => Some(self),
        }
    }

    /// The state at `now`: a fade that is over ends (see [`settled_state`]).
    pub fn settle(self, now: i64, animation_duration: u64) -> (r: RenderSetState)
        ensures
            r == settled_state(self, now as int, animation_duration as int),
    {
        let start = match self {
            RenderSetState::FadingIn { start_time } => start_time,
            RenderSetState::FadingOut { start_time } => start_time,
            _ => {
                return self;
            },
        };
        let elapsed_millis = elapsed_nanos(now, start) / NANOS_PER_MILLI;
        let duration_millis = animation_duration / NANOS_PER_MILLI;
        let over = animation_duration == 0 || (elapsed_millis >= duration_millis && elapsed_millis
            > 0);
        if !over {
            self
        } else {
            match self {
                RenderSetState::FadingIn { .. } => RenderSetState::Displayed,
                _ => RenderSetState::Hidden,
            }
        }
    }

    /// The state of a set that is free to be displayed.
    pub fn when_free(self, now: i64, animation_duration: u64) -> (r: RenderSetState)
        requires
            reversal_ok(self, now as int, animation_duration as int),
        ensures
            r == shown_state(self, now as int, animation_duration as int),
    {
        match self {
            RenderSetState::Hidden => RenderSetState::FadingIn { start_time: now },
            RenderSetState::FadingOut { start_time } => RenderSetState::FadingIn {
                start_time: reverse(now, start_time, animation_duration),
            },
            _ => self,
        }
    }
}

/// Reversing a fade keeps the set's opacity: when a fade that started at `start` (no later
/// than `now`) and is not finished is reversed, the new fade has gone as far as the old one
/// had left to go.
pub proof fn lemma_reversal_keeps_progress(now: int, start: int, animation_duration: int)
    requires
        start <= now,
        now - start <= animation_duration,
    ensures
        elapsed(now, reversed_start(now, start, animation_duration)) == animation_duration
            - elapsed(now, start),
{
}

/// Reversing a fade twice at the same moment gives back the fade's start.
pub proof fn lemma_reversal_round_trip(now: int, start: int, animation_duration: int)
    requires
        start <= now,
        now - start <= animation_duration,
    ensures
        reversed_start(now, reversed_start(now, start, animation_duration), animation_duration)
            == start,
{
}

/// Hiding then showing a set that is fading in, at the same moment, restores its fade-in.
pub proof fn lemma_overlap_then_free(start: i64, now: i64, animation_duration: u64)
    requires
        start <= now,
        now - start <= animation_duration,
        reversal_defined(now as int, start as int, animation_duration as int),
    ensures
        ({
            let s = RenderSetState::FadingIn { start_time: start };
            hidden_state(s, now as int, animation_duration as int) matches Some(h)
                && shown_state(h, now as int, animation_duration as int) == s
        }),
{
    let r = reversed_start(now as int, start as int, animation_duration as int);
    assert(i64::MIN <= r <= now);
    assert(r as i64 == r);
}

/// Hiding and showing are idempotent: a hidden set stays as it is when hidden again, a shown
/// set stays as it is when shown again.
pub proof fn lemma_overlap_and_free_idempotent(state: RenderSetState, now: int, animation_duration: int)
    ensures
        hidden_state(state, now, animation_duration) matches Some(h) ==> hidden_state(
            h,
            now,
            animation_duration,
        ) == Some(h),
        shown_state(shown_state(state, now, animation_duration), now, animation_duration)
            == shown_state(state, now, animation_duration),
{
}

/// Settling is idempotent, and a fade-in or fade-out at its start is not over unless the
/// duration is zero.
pub proof fn lemma_settle_idempotent_and_fresh_fades(state: RenderSetState, now: i64, animation_duration: int)
    ensures
        settled_state(settled_state(state, now as int, animation_duration), now as int, animation_duration)
            == settled_state(state, now as int, animation_duration),
        animation_duration != 0 ==> settled_state(
            RenderSetState::FadingIn { start_time: now },
            now as int,
            animation_duration,
        ) == (RenderSetState::FadingIn { start_time: now }),
        animation_duration != 0 ==> settled_state(
            RenderSetState::FadingOut { start_time: now },
            now as int,
            animation_duration,
        ) == (RenderSetState::FadingOut { start_time: now }),
{
}

} // verus!
