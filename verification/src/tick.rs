//! The per-phase handlers of the game and the transition relation they are
//! proved against, together with the laws of the game stated over that
//! relation.

use vstd::prelude::*;

use crate::rng::draw_uniform;
use crate::state::{
    calibration_steps, in_window, is_match, next_direction, next_needle, CalStep, GameData, LedCmd,
    Phase, TickEffects, CALIBRATION_SLEEP_MS, PULSE_MAX_US, PULSE_MIN_US, PULSE_NEUTRAL_US,
    STAGES, STEP_US, TICK_SLEEP_MS, TOLERANCE_US, WON_SLEEP_MS,
};

verus! {

/// Effects of a tick that does nothing to the hardware: every output kept,
/// no pulse pushed, no sleep.
pub open spec fn idle_effects() -> TickEffects {
    TickEffects {
        led1: LedCmd::Keep,
        led2: LedCmd::Keep,
        led3: LedCmd::Keep,
        indicator: LedCmd::Keep,
        pulse_us: Option::None,
        sleep_ms: 0,
        matched: false,
    }
}

/// Commands for the three progress outputs on a Play tick: the active stage's
/// output blinks while every cleared stage's output is forced high.
pub open spec fn progress_cmds(progress_index: usize) -> (LedCmd, LedCmd, LedCmd) {
    if progress_index == 0 {
        (LedCmd::Toggle, LedCmd::Keep, LedCmd::Keep)
    } else if progress_index == 1 {
        (LedCmd::SetHigh, LedCmd::Toggle, LedCmd::Keep)
    } else {
        (LedCmd::SetHigh, LedCmd::SetHigh, LedCmd::Toggle)
    }
}

/// Effects of one Won tick: blink every output and pause briefly.
pub open spec fn won_effects() -> TickEffects {
    TickEffects {
        led1: LedCmd::Toggle,
        led2: LedCmd::Toggle,
        led3: LedCmd::Toggle,
        indicator: LedCmd::Toggle,
        pulse_us: Option::None,
        sleep_ms: WON_SLEEP_MS,
        matched: false,
    }
}

/// The transition relation of one Play tick. `pre` and `post` are the session
/// data before and after, `fresh_target` the random value a match replaces
/// the target with, `next` the phase handed back and `fx` the hardware
/// commands. With all stages cleared on entry the tick only moves to Won;
/// otherwise the match is judged on the needle position the previous tick
/// ended with, and only then is the needle stepped.
pub open spec fn play_step(
    pre: GameData,
    button_high: bool,
    fresh_target: u64,
    post: GameData,
    next: Phase,
    fx: TickEffects,
) -> bool {
    if pre.progress_index >= STAGES {
        &&& next is Won
        &&& post == pre
        &&& fx == idle_effects()
    } else {
        let hit = is_match(pre, button_high);
        let dir = next_direction(pre.needle_position, pre.sweeping_clockwise);
        &&& next is Play
        &&& post.progress_index == pre.progress_index + (if hit { 1int } else { 0 })
        &&& post.target == (if hit { fresh_target } else { pre.target })
        &&& post.sweeping_clockwise == dir
        &&& post.needle_position == next_needle(pre.needle_position, dir)
        &&& (fx.led1, fx.led2, fx.led3) == progress_cmds(pre.progress_index)
        &&& fx.indicator == (if in_window(pre.target, pre.needle_position) {
            LedCmd::SetHigh
        } else {
            LedCmd::SetLow
        })
        &&& fx.pulse_us == Option::Some(next_needle(pre.needle_position, dir))
        &&& fx.sleep_ms == TICK_SLEEP_MS
        &&& fx.matched == hit
    }
}

/// Fresh session data for a new game: no stage cleared, the needle parked at
/// the upper bound sweeping upward (Setup re-centres it before play), and a
/// random first target.
pub fn initial_data() -> (d: GameData)
    ensures
        d.wf(),
        d.progress_index == 0,
        d.needle_position == PULSE_MAX_US,
        d.sweeping_clockwise,
        PULSE_MIN_US <= d.target <= PULSE_MAX_US,
{
    let target = draw_uniform(PULSE_MIN_US, PULSE_MAX_US);
    GameData {
        target,
        needle_position: PULSE_MAX_US,
        progress_index: 0,
        sweeping_clockwise: true,
    }
}

/// The Setup handler: hands the caller the four-step calibration sequence to
/// perform, re-centres the needle at the neutral pulse width and passes
/// control to Play. Nothing else in the session data is touched.
pub fn setup_handler(data: &mut GameData) -> (r: (Phase, Vec<CalStep>))
    ensures
        r.0 is Play,
        r.1@ == calibration_steps(),
        *final(data) == (GameData { needle_position: PULSE_NEUTRAL_US, ..*old(data) }),
        old(data).in_bounds() ==> final(data).wf(),
{
    let mut steps: Vec<CalStep> = Vec::new();
    steps.push(
        CalStep {
            progress_all_low: true,
            pulse_us: Option::None,
            indicator: LedCmd::SetLow,
            sleep_ms: CALIBRATION_SLEEP_MS,
        },
    );
    steps.push(
        CalStep {
            progress_all_low: false,
            pulse_us: Option::Some(PULSE_MIN_US),
            indicator: LedCmd::SetHigh,
            sleep_ms: CALIBRATION_SLEEP_MS,
        },
    );
    steps.push(
        CalStep {
            progress_all_low: false,
            pulse_us: Option::Some(PULSE_MAX_US),
            indicator: LedCmd::SetLow,
            sleep_ms: CALIBRATION_SLEEP_MS,
        },
    );
    steps.push(
        CalStep {
            progress_all_low: false,
            pulse_us: Option::Some(PULSE_NEUTRAL_US),
            indicator: LedCmd::SetHigh,
            sleep_ms: CALIBRATION_SLEEP_MS,
        },
    );
    data.needle_position = PULSE_NEUTRAL_US;
    proof {
        assert(steps@ =~= calibration_steps());
    }
    (Phase::Play, steps)
}

/// Whether `target` lies within the tolerance window around `needle`.
pub fn in_tolerance(target: u64, needle: u64) -> (r: bool)
    requires
        PULSE_MIN_US <= needle <= PULSE_MAX_US,
    ensures
        r == in_window(target, needle),
{
    needle - TOLERANCE_US <= target && target <= needle + TOLERANCE_US
}

/// One Play tick with the replacement target supplied by the caller, so that
/// the whole update is deterministic and its relation to the previous state
/// is exact. `play_tick` draws the target at random and passes it in.
pub fn play_tick_with_target(data: &mut GameData, button_high: bool, fresh_target: u64) -> (r:
    (Phase, TickEffects))
    requires
        old(data).in_bounds(),
        PULSE_MIN_US <= fresh_target <= PULSE_MAX_US,
    ensures
        play_step(*old(data), button_high, fresh_target, *final(data), r.0, r.1),
        old(data).wf() ==> final(data).wf(),
{
    if data.progress_index >= STAGES {
        return (
            Phase::Won,
            TickEffects {
                led1: LedCmd::Keep,
                led2: LedCmd::Keep,
                led3: LedCmd::Keep,
                indicator: LedCmd::Keep,
                pulse_us: Option::None,
                sleep_ms: 0,
                matched: false,
            },
        );
    }
    let (led1, led2, led3) = if data.progress_index == 0 {
        (LedCmd::Toggle, LedCmd::Keep, LedCmd::Keep)
    } else if data.progress_index == 1 {
        (LedCmd::SetHigh, LedCmd::Toggle, LedCmd::Keep)
    } else {
        (LedCmd::SetHigh, LedCmd::SetHigh, LedCmd::Toggle)
    };
    let window = in_tolerance(data.target, data.needle_position);
    let indicator = if window {
        LedCmd::SetHigh
    } else {
        LedCmd::SetLow
    };
    let hit = window && button_high;
    if hit {
        data.progress_index = data.progress_index + 1;
        data.target = fresh_target;
    }
    if data.needle_position >= PULSE_MAX_US {
        data.sweeping_clockwise = false;
    } else if data.needle_position <= PULSE_MIN_US {
        data.sweeping_clockwise = true;
    }
    if data.sweeping_clockwise {
        data.needle_position = data.needle_position + STEP_US;
    } else {
        data.needle_position = data.needle_position - STEP_US;
    }
    (
        Phase::Play,
        TickEffects {
            led1,
            led2,
            led3,
            indicator,
            pulse_us: Option::Some(data.needle_position),
            sleep_ms: TICK_SLEEP_MS,
            matched: hit,
        },
    )
}

/// One Play tick as the game runs it: on a match the new target is drawn at
/// random, so only its range is promised; everything else of the update is
/// pinned by the same relation, applied to the target the data ends up with.
pub fn play_tick(data: &mut GameData, button_high: bool) -> (r: (Phase, TickEffects))
    requires
        old(data).in_bounds(),
    ensures
        play_step(*old(data), button_high, final(data).target, *final(data), r.0, r.1),
        PULSE_MIN_US <= final(data).target <= PULSE_MAX_US,
        old(data).wf() ==> final(data).wf(),
{
    let hit = data.progress_index < STAGES && in_tolerance(data.target, data.needle_position)
        && button_high;
    let fresh = if hit {
        draw_uniform(PULSE_MIN_US, PULSE_MAX_US)
    } else {
        data.target
    };
    play_tick_with_target(data, button_high, fresh)
}

/// One Won tick: ask the caller to blink every output and pause. The session
/// data is no longer read or changed; the phase stays Won forever.
pub fn won_tick() -> (fx: TickEffects)
    ensures
        fx == won_effects(),
{
    TickEffects {
        led1: LedCmd::Toggle,
        led2: LedCmd::Toggle,
        led3: LedCmd::Toggle,
        indicator: LedCmd::Toggle,
        pulse_us: Option::None,
        sleep_ms: WON_SLEEP_MS,
        matched: false,
    }
}

/// Law: the needle never leaves its travel bounds, and the direction flips
/// exactly when a bound is touched — forced downward at the upper bound,
/// forced upward at the lower bound, kept everywhere between.
pub proof fn lemma_needle_stays_in_bounds(
    pre: GameData,
    button_high: bool,
    fresh_target: u64,
    post: GameData,
    next: Phase,
    fx: TickEffects,
)
    requires
        pre.wf(),
        PULSE_MIN_US <= fresh_target <= PULSE_MAX_US,
        play_step(pre, button_high, fresh_target, post, next, fx),
    ensures
        PULSE_MIN_US <= post.needle_position <= PULSE_MAX_US,
        post.wf(),
        pre.progress_index < STAGES ==> post.sweeping_clockwise == next_direction(
            pre.needle_position,
            pre.sweeping_clockwise,
        ),
{
}

/// Law: on a tick with a stage still to clear, a match is counted exactly
/// when the needle sits within the tolerance window of the target and the
/// button is held: the progress index then grows by one and the target is
/// replaced by the fresh draw; on any other such tick both are unchanged.
pub proof fn lemma_match_detection(
    pre: GameData,
    button_high: bool,
    fresh_target: u64,
    post: GameData,
    next: Phase,
    fx: TickEffects,
)
    requires
        pre.progress_index < STAGES,
        play_step(pre, button_high, fresh_target, post, next, fx),
    ensures
        in_window(pre.target, pre.needle_position) && button_high ==> {
            &&& post.progress_index == pre.progress_index + 1
            &&& post.target == fresh_target
        },
        !(in_window(pre.target, pre.needle_position) && button_high) ==> {
            &&& post.progress_index == pre.progress_index
            &&& post.target == pre.target
        },
{
}

/// Law: once the progress index has reached the stage count, the very next
/// tick moves the phase to Won unconditionally, leaving the session data
/// untouched and commanding no hardware change at all.
pub proof fn lemma_won_transition(
    pre: GameData,
    button_high: bool,
    fresh_target: u64,
    post: GameData,
    next: Phase,
    fx: TickEffects,
)
    requires
        pre.progress_index >= STAGES,
        play_step(pre, button_high, fresh_target, post, next, fx),
    ensures
        next is Won,
        post == pre,
        fx == idle_effects(),
{
}

/// Law: no Play tick ever hands control back to Setup, so the calibration
/// sequence of `setup_handler` runs exactly once per game.
pub proof fn lemma_setup_never_revisited(
    pre: GameData,
    button_high: bool,
    fresh_target: u64,
    post: GameData,
    next: Phase,
    fx: TickEffects,
)
    requires
        play_step(pre, button_high, fresh_target, post, next, fx),
    ensures
        next !is Setup,
{
}

} // verus!
