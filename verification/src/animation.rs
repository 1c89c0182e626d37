//! The heights through which a tab window passes while it unfolds or rolls
//! up: a sine-in-out easing, sampled at a fixed step of time.
//!
//! Time is counted in ticks of a thirtieth of a second, so that the duration
//! and the step are whole numbers and every run gives the same frames.

use tween::Tweener;
use vstd::prelude::*;

verus! {

/// The height of a collapsed tab, in logical units.
pub const COLLAPSED: i32 = 35;

/// How long an animation lasts: two and a half seconds, in ticks.
pub const DURATION_TICKS: u32 = 75;

/// The time between two frames: a fifteenth of a second, in ticks.
pub const STEP_TICKS: u32 = 2;

/// The number of frames of an animation: as many steps as it takes to reach
/// the duration.
pub const FRAME_COUNT: usize = 38;

/// The heights that can be animated lie within this distance of zero: there
/// the easing's arithmetic neither overflows nor rounds a whole number.
pub const HEIGHT_LIMIT: i32 = 8_388_608;

/// The most ticks that the easing is asked about.
pub const TICK_LIMIT: u32 = 16_777_216;

/// Whether `height` can be animated.
pub open spec fn animatable(height: int) -> bool {
    -HEIGHT_LIMIT <= height <= HEIGHT_LIMIT
}

/// Whether `x` lies between `a` and `b`, whichever of the two is larger.
pub open spec fn between(a: int, x: int, b: int) -> bool {
    (a <= x <= b) || (b <= x <= a)
}

/// The frame after `previous` on the way to `target`, given the eased value
/// `eased`: the eased value, held back where it would step behind the frame
/// before it or beyond the target.
pub open spec fn held(previous: int, target: int, eased: int) -> int {
    if previous <= target {
        if eased < previous {
            previous
        } else if eased > target {
            target
        } else {
            eased
        }
    } else {
        if eased > previous {
            previous
        } else if eased < target {
            target
        } else {
            eased
        }
    }
}

/// Whether `frames` leads from `start` to `end`: of the full count, never
/// turning back, never leaving the span between the two, and ending on `end`
/// itself.
pub open spec fn is_animation(frames: Seq<i32>, start: int, end: int) -> bool {
    &&& frames.len() == FRAME_COUNT
    &&& frames[frames.len() - 1] == end
    &&& forall|i: int| 0 <= i < frames.len() ==> between(start, (#[trigger] frames[i]) as int, end)
    &&& forall|i: int, j: int|
        0 <= i <= j < frames.len() ==> between(
            (#[trigger] frames[i]) as int,
            (#[trigger] frames[j]) as int,
            end,
        )
}

/// The value of `tween`'s sine-in-out easing from `start` to `end` when
/// `elapsed` of `duration` ticks have passed
/// (`Tweener::sine_in_out(start, end, duration).move_to(elapsed)`).
///
/// Trusted: past its duration the tweener hands out its end value. Of the
/// values on the way nothing is claimed: they come from a cosine in single
/// precision. The bounds keep the tweener's own arithmetic from overflowing
/// and its times exact.
#[verifier::external_body]
fn sine_in_out_at(start: i32, end: i32, duration: u32, elapsed: u32) -> (value: i32)
    requires
        animatable(start as int),
        animatable(end as int),
        duration <= TICK_LIMIT,
        elapsed <= TICK_LIMIT,
    ensures
        elapsed > duration ==> value == end,
{
    Tweener::sine_in_out(start, end, duration).move_to(elapsed)
}

/// The frame after `previous` on the way to `target`, given the eased value.
pub fn next_frame(previous: i32, target: i32, eased: i32) -> (frame: i32)
    ensures
        frame == held(previous as int, target as int, eased as int),
{
    if previous <= target {
        if eased < previous {
            previous
        } else if eased > target {
            target
        } else {
            eased
        }
    } else {
        if eased > previous {
            previous
        } else if eased < target {
            target
        } else {
            eased
        }
    }
}

/// What comes before the frame `at`: the frame before it, or `start` before
/// the first.
pub open spec fn frame_before(frames: Seq<i32>, start: int, at: int) -> int {
    if at == 0 {
        start
    } else {
        frames[at - 1] as int
    }
}

/// Whether `frames` are the frames that the eased values `eased` give on the
/// way from `start` to `end`: one for each value, each the value held
/// between what came before it and the target.
pub open spec fn follows(frames: Seq<i32>, start: int, end: int, eased: Seq<i32>) -> bool {
    &&& frames.len() == eased.len()
    &&& forall|at: int|
        0 <= at < frames.len() ==> (#[trigger] frames[at]) as int == held(
            frame_before(frames, start, at),
            end,
            eased[at] as int,
        )
}

/// Frames that follow eased values lie between the start and the target, and
/// each lies between every frame before it and the target.
pub proof fn lemma_frames_never_turn_back(
    frames: Seq<i32>,
    start: int,
    end: int,
    eased: Seq<i32>,
    earlier: int,
    later: int,
)
    requires
        follows(frames, start, end, eased),
        0 <= earlier <= later < frames.len(),
    ensures
        between(start, frames[later] as int, end),
        between(frames[earlier] as int, frames[later] as int, end),
    decreases later,
{
    if later > 0 {
        lemma_frames_never_turn_back(frames, start, end, eased, 0, later - 1);
        if earlier < later {
            lemma_frames_never_turn_back(frames, start, end, eased, earlier, later - 1);
        }
    }
    assert(frames[later] as int == held(frame_before(frames, start, later), end, eased[later] as int));
}

/// The frames that the eased values `eased` give on the way from `start` to
/// `end`.
pub fn frames_from(start: i32, end: i32, eased: &Vec<i32>) -> (frames: Vec<i32>)
    ensures
        follows(frames@, start as int, end as int, eased@),
{
    let mut frames: Vec<i32> = Vec::new();
    let mut previous: i32 = start;
    let mut at: usize = 0;
    while at < eased.len()
        invariant
            at <= eased@.len(),
            frames@.len() == at,
            previous as int == frame_before(frames@, start as int, at as int),
            forall|k: int|
                0 <= k < at ==> (#[trigger] frames@[k]) as int == held(
                    frame_before(frames@, start as int, k),
                    end as int,
                    eased@[k] as int,
                ),
        decreases eased@.len() - at,
    {
        let ghost before = frames@;
        let frame = next_frame(previous, end, eased[at]);
        frames.push(frame);
        assert forall|k: int| 0 <= k < at + 1 implies (#[trigger] frames@[k]) as int == held(
            frame_before(frames@, start as int, k),
            end as int,
            eased@[k] as int,
        ) by {
            if k < at {
                assert(frames@[k] == before[k]);
                assert(frame_before(frames@, start as int, k) == frame_before(before, start as int, k));
            }
        }
        previous = frame;
        at += 1;
    }
    frames
}

/// The frames of the animation from `start` to `end`: one for each step of
/// time until the duration is reached, each the eased value of its moment,
/// held within what came before and the target.
pub fn animate(start: i32, end: i32) -> (frames: Vec<i32>)
    requires
        animatable(start as int),
        animatable(end as int),
    ensures
        is_animation(frames@, start as int, end as int),
{
    let mut eased: Vec<i32> = Vec::new();
    let mut elapsed: u32 = 0;
    while elapsed < DURATION_TICKS
        invariant
            animatable(start as int),
            animatable(end as int),
            elapsed == STEP_TICKS * eased@.len(),
            elapsed <= DURATION_TICKS + 1,
            elapsed > DURATION_TICKS ==> eased@.len() > 0 && eased@[eased@.len() - 1] == end,
        decreases DURATION_TICKS + 1 - elapsed,
    {
        elapsed = elapsed + STEP_TICKS;
        eased.push(sine_in_out_at(start, end, DURATION_TICKS, elapsed));
    }
    let frames = frames_from(start, end, &eased);
    proof {
        let last = frames@.len() - 1;
        lemma_frames_never_turn_back(frames@, start as int, end as int, eased@, 0, last);
        assert(frames@[last] as int == held(
            frame_before(frames@, start as int, last),
            end as int,
            eased@[last] as int,
        ));
        assert forall|i: int| 0 <= i < frames@.len() implies between(
            start as int,
            (#[trigger] frames@[i]) as int,
            end as int,
        ) by {
            lemma_frames_never_turn_back(frames@, start as int, end as int, eased@, i, i);
        }
        assert forall|i: int, j: int| 0 <= i <= j < frames@.len() implies between(
            (#[trigger] frames@[i]) as int,
            (#[trigger] frames@[j]) as int,
            end as int,
        ) by {
            lemma_frames_never_turn_back(frames@, start as int, end as int, eased@, i, j);
        }
    }
    frames
}

/// The frames in which a collapsed tab unfolds to `height`, or `None` where
/// `height` cannot be animated.
pub fn expand_window(height: i32) -> (r: Option<Vec<i32>>)
    ensures
        r is Some <==> animatable(height as int),
        r matches Some(frames) ==> is_animation(frames@, COLLAPSED as int, height as int),
{
    if -HEIGHT_LIMIT <= height && height <= HEIGHT_LIMIT {
        Some(animate(COLLAPSED, height))
    } else {
        None
    }
}

/// The frames in which a tab of the height `height` rolls up to the
/// collapsed height, or `None` where `height` cannot be animated.
pub fn roll_up_window(height: i32) -> (r: Option<Vec<i32>>)
    ensures
        r is Some <==> animatable(height as int),
        r matches Some(frames) ==> is_animation(frames@, height as int, COLLAPSED as int),
{
    if -HEIGHT_LIMIT <= height && height <= HEIGHT_LIMIT {
        Some(animate(height, COLLAPSED))
    } else {
        None
    }
}

} // verus!
