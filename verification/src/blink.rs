//! How the blink behaves over a run of frames.

use vstd::prelude::*;
use vstd::arithmetic::div_mod::lemma_div_is_ordered;
use vstd::arithmetic::div_mod::lemma_div_multiples_vanish;
use vstd::arithmetic::div_mod::lemma_multiply_divide_lt;
use crate::state::DreamState;

verus! {

/// The state after one frame at each of `times`, in order.
pub open spec fn after_ticks(state: DreamState, times: Seq<nat>) -> DreamState
    decreases times.len(),
{
    if times.len() == 0 {
        state
    } else {
        after_ticks(state, times.drop_last()).after_tick(times.last())
    }
}

/// How often the blink changes over one frame at each of `times`.
pub open spec fn toggles_during(state: DreamState, times: Seq<nat>) -> nat
    decreases times.len(),
{
    if times.len() == 0 {
        0
    } else {
        let earlier = toggles_during(state, times.drop_last());
        if after_ticks(state, times.drop_last()).blink_due(times.last()) {
            earlier + 1
        } else {
            earlier
        }
    }
}

/// Frames come in order and at most `gap` nanoseconds apart.
pub open spec fn frames_at_most_apart(times: Seq<nat>, gap: nat) -> bool {
    forall|i: int|
        0 <= i && i + 1 < times.len() ==> #[trigger] times[i] <= times[i + 1] && times[i + 1]
            <= times[i] + gap
}

/// Frames change nothing but the blink, and the blink ends up in its white
/// half exactly if it began there and changed an even number of times, or
/// began in its black half and changed an odd number of times. A stopped
/// stimulus does not blink at all.
pub proof fn frames_change_only_the_blink(state: DreamState, times: Seq<nat>)
    ensures
        after_ticks(state, times) == (DreamState {
            show_white: after_ticks(state, times).show_white,
            last_toggle: after_ticks(state, times).last_toggle,
            ..state
        }),
        after_ticks(state, times).show_white == (state.show_white != (toggles_during(state, times)
            % 2 == 1)),
        !state.flashing ==> toggles_during(state, times) == 0 && after_ticks(state, times) == state,
    decreases times.len(),
{
    if times.len() > 0 {
        frames_change_only_the_blink(state, times.drop_last());
    }
}

proof fn lemma_changes_lie_an_interval_apart(
    state: DreamState,
    times: Seq<nat>,
    from: nat,
    span: nat,
)
    requires
        forall|i: int| 0 <= i < times.len() ==> from <= #[trigger] times[i] <= from + span,
    ensures
        after_ticks(state, times).interval == state.interval,
        toggles_during(state, times) >= 1 ==> from + (toggles_during(state, times) - 1)
            * state.interval <= after_ticks(state, times).last_toggle <= from + span,
    decreases times.len(),
{
    if times.len() > 0 {
        let head = times.drop_last();
        let now = times.last();
        assert forall|i: int| 0 <= i < head.len() implies from <= #[trigger] head[i] <= from
            + span by {
            assert(head[i] == times[i]);
        }
        lemma_changes_lie_an_interval_apart(state, head, from, span);
        let before = after_ticks(state, head);
        let k: int = toggles_during(state, head) as int;
        let interval: int = state.interval as int;
        assert(from <= times[times.len() - 1] <= from + span);
        if before.blink_due(now) {
            // The change at `now` comes a full interval after the one before it.
            let total: int = toggles_during(state, times) as int;
            assert(total == k + 1);
            assert((total - 1) * interval == (k - 1) * interval + interval) by (nonlinear_arith)
                requires
                    total == k + 1,
            ;
            if k == 0 {
                assert((total - 1) * interval == 0) by (nonlinear_arith)
                    requires
                        total == 1,
                ;
            } else if now < before.last_toggle {
                // Due although no time has passed: the interval is zero.
                assert((total - 1) * interval == 0) by (nonlinear_arith)
                    requires
                        interval == 0,
                ;
            }
        }
    }
}

/// The blink changes at most once per interval: over frames that all fall
/// within a window of `span` nanoseconds, whatever their number and order,
/// it changes no more than `span / interval + 1` times.
pub proof fn blink_changes_at_most_once_per_interval(
    state: DreamState,
    times: Seq<nat>,
    from: nat,
    span: nat,
)
    requires
        forall|i: int| 0 <= i < times.len() ==> from <= #[trigger] times[i] <= from + span,
    ensures
        toggles_during(state, times) >= 1 ==> (toggles_during(state, times) - 1) * state.interval
            <= span,
        state.interval >= 1 ==> toggles_during(state, times) <= span / state.interval + 1,
{
    lemma_changes_lie_an_interval_apart(state, times, from, span);
    let k: int = toggles_during(state, times) as int;
    let interval: int = state.interval as int;
    if k >= 1 && interval >= 1 {
        lemma_div_is_ordered((k - 1) * interval, span as int, interval);
        lemma_div_multiples_vanish(k - 1, interval);
        assert((k - 1) * interval == interval * (k - 1)) by (nonlinear_arith);
    }
}

proof fn lemma_changes_follow_the_frames(state: DreamState, times: Seq<nat>, gap: nat)
    requires
        state.flashing,
        state.interval >= 1,
        times.len() >= 1,
        state.last_toggle <= times[0],
        gap >= 1,
        frames_at_most_apart(times, gap),
    ensures
        after_ticks(state, times).interval == state.interval,
        after_ticks(state, times).flashing,
        after_ticks(state, times).last_toggle <= times.last(),
        times.last() - after_ticks(state, times).last_toggle < state.interval,
        after_ticks(state, times).last_toggle - times[0] <= toggles_during(state, times) * (
        state.interval + gap - 1),
    decreases times.len(),
{
    let head = times.drop_last();
    let slack: int = state.interval + gap - 1;
    if times.len() == 1 {
        // The first frame: the blink changes at once if it is due, and is
        // not late either way.
        assert(after_ticks(state, head) == state);
        assert(toggles_during(state, head) == 0);
        assert(0 * slack == 0);
        assert(1 * slack == slack);
    } else {
        assert(head[0] == times[0]);
        assert forall|i: int| 0 <= i && i + 1 < head.len() implies #[trigger] head[i] <= head[i
            + 1] && head[i + 1] <= head[i] + gap by {
            assert(head[i] == times[i]);
            assert(head[i + 1] == times[i + 1]);
        }
        lemma_changes_follow_the_frames(state, head, gap);
        // The frame before this one left the blink short of due, so this
        // one is less than `gap` past the due instant.
        let k: int = toggles_during(state, head) as int;
        let last: int = times.len() - 2;
        assert(head.last() == times[last]);
        assert(times[last] <= times[last + 1] && times[last + 1] <= times[last] + gap);
        assert((k + 1) * slack == k * slack + slack) by (nonlinear_arith);
    }
}

/// The blink keeps pace with the frames: where frames come at most `gap`
/// nanoseconds apart, each change is at most `gap - 1` nanoseconds late, so
/// over the time from the first frame to the last the blink changes often
/// enough that one interval more, at that pace, would overshoot it.
pub proof fn blink_keeps_pace(state: DreamState, times: Seq<nat>, gap: nat)
    requires
        state.flashing,
        state.interval >= 1,
        times.len() >= 1,
        state.last_toggle <= times[0],
        gap >= 1,
        frames_at_most_apart(times, gap),
    ensures
        times.last() - times[0] < toggles_during(state, times) * (state.interval + gap - 1)
            + state.interval,
{
    lemma_changes_follow_the_frames(state, times, gap);
}

proof fn lemma_frames_in_order(times: Seq<nat>, gap: nat, i: int, j: int)
    requires
        frames_at_most_apart(times, gap),
        0 <= i <= j < times.len(),
    ensures
        times[i] <= times[j],
    decreases j - i,
{
    if i < j {
        lemma_frames_in_order(times, gap, i, j - 1);
        assert(times[j - 1] <= times[j - 1 + 1]);
    }
}

/// The blink changes once per interval: over the `span` nanoseconds from the
/// first frame to the last it changes `span / interval` times, give or take
/// one, as long as the frames come often enough that the lateness of all the
/// changes together stays within one interval. With a frame at every instant
/// no change is late, and the count is `span / interval` or one more.
pub proof fn blink_changes_once_per_interval(state: DreamState, times: Seq<nat>, gap: nat)
    requires
        state.flashing,
        state.interval >= 1,
        times.len() >= 1,
        state.last_toggle <= times[0],
        gap >= 1,
        frames_at_most_apart(times, gap),
        toggles_during(state, times) * (gap - 1) <= state.interval,
    ensures
        (times.last() - times[0]) / (state.interval as int) - 1 <= toggles_during(state, times)
            <= (times.last() - times[0]) / (state.interval as int) + 1,
        gap == 1 ==> (times.last() - times[0]) / (state.interval as int) <= toggles_during(
            state,
            times,
        ),
{
    let span: int = times.last() - times[0];
    let k: int = toggles_during(state, times) as int;
    let interval: int = state.interval as int;
    let late: int = gap - 1;
    assert forall|i: int| 0 <= i < times.len() implies times[0] <= #[trigger] times[i]
        <= times[0] + span by {
        lemma_frames_in_order(times, gap, 0, i);
        lemma_frames_in_order(times, gap, i, times.len() - 1);
    }
    blink_changes_at_most_once_per_interval(state, times, times[0], span as nat);
    blink_keeps_pace(state, times, gap);
    assert(span < interval * (k + 2)) by (nonlinear_arith)
        requires
            span < k * (interval + late) + interval,
            k * late <= interval,
    ;
    lemma_multiply_divide_lt(span, interval, k + 2);
    if gap == 1 {
        assert(span < interval * (k + 1)) by (nonlinear_arith)
            requires
                span < k * (interval + late) + interval,
                late == 0,
        ;
        lemma_multiply_divide_lt(span, interval, k + 1);
    }
}

} // verus!
