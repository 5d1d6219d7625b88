//! Session data, phase enum and the command types handed back to the caller,
//! together with the spec-level rules of the game: the tolerance window, the
//! sweep direction update and the needle step.

use vstd::prelude::*;

verus! {

/// PWM pulse width at the lower end of the needle's travel, in microseconds.
pub const PULSE_MIN_US: u64 = 500;
/// Neutral PWM pulse width the needle rests at after calibration.
pub const PULSE_NEUTRAL_US: u64 = 1500;
/// PWM pulse width at the upper end of the needle's travel.
pub const PULSE_MAX_US: u64 = 2500;
/// How far the needle moves per tick, in microseconds of pulse width.
pub const STEP_US: u64 = 50;
/// Half-width of the window around the target that counts as a hit.
pub const TOLERANCE_US: u64 = 50;
/// Pause at the end of each Play tick, in milliseconds.
pub const TICK_SLEEP_MS: u64 = 500;
/// Pause between blinks of the victory pattern, in milliseconds.
pub const WON_SLEEP_MS: u64 = 300;
/// Pause after each calibration step during Setup, in milliseconds.
pub const CALIBRATION_SLEEP_MS: u64 = 1000;
/// Number of stages the player must match to win.
pub const STAGES: usize = 3;

/// Phase of the game's state machine. `Setup` runs the calibration sequence
/// once and hands over to `Play`; `Play` ticks until all stages are matched;
/// `Won` blinks the victory pattern forever.
#[derive(Clone, Copy, PartialEq, Eq, Debug)]
pub enum Phase {
    Setup,
    Play,
    Won,
}

/// Mutable session data of one game.
#[derive(Clone, Copy, PartialEq, Eq, Debug)]
pub struct GameData {
    /// Hidden pulse-width value the player must catch, in microseconds.
    pub target: u64,
    /// Current pulse width of the needle, in microseconds.
    pub needle_position: u64,
    /// How many of the stages have been cleared, 0 through `STAGES`.
    pub progress_index: usize,
    /// Direction of needle travel: `true` means the pulse width is growing.
    pub sweeping_clockwise: bool,
}

/// One command for a digital output pin; the caller applies it to hardware.
#[derive(Clone, Copy, PartialEq, Eq, Debug)]
pub enum LedCmd {
    /// Leave the pin as it is.
    Keep,
    SetHigh,
    SetLow,
    Toggle,
}

/// Everything one Play or Won tick asks the caller to do, in order: drive the
/// three progress outputs, drive the indicator, push a new pulse width if one
/// is given, then sleep.
#[derive(Clone, Copy, PartialEq, Eq, Debug)]
pub struct TickEffects {
    pub led1: LedCmd,
    pub led2: LedCmd,
    pub led3: LedCmd,
    pub indicator: LedCmd,
    /// New PWM pulse width to push, if the tick moved the needle.
    pub pulse_us: Option<u64>,
    /// How long to sleep before the next poll, in milliseconds.
    pub sleep_ms: u64,
    /// Whether this tick counted a match, for the caller's notice to the player.
    pub matched: bool,
}

/// One step of the Setup calibration sequence, applied in field order:
/// optionally force all progress outputs low, push a pulse width if one is
/// given, drive the indicator, then sleep.
#[derive(Clone, Copy, PartialEq, Eq, Debug)]
pub struct CalStep {
    /// Force all three progress outputs low before anything else.
    pub progress_all_low: bool,
    /// New PWM pulse width to push, if this step moves the needle.
    pub pulse_us: Option<u64>,
    pub indicator: LedCmd,
    /// How long to sleep after this step, in milliseconds.
    pub sleep_ms: u64,
}

impl GameData {
    /// The ranges every field keeps: target and needle within the travel
    /// bounds, progress within the stage count.
    pub open spec fn in_bounds(self) -> bool {
        &&& PULSE_MIN_US <= self.target <= PULSE_MAX_US
        &&& PULSE_MIN_US <= self.needle_position <= PULSE_MAX_US
        &&& self.progress_index <= STAGES
    }

    /// The needle sits on the step grid: reachable positions are multiples of
    /// the step, which is what keeps a step from overshooting a bound.
    pub open spec fn aligned(self) -> bool {
        self.needle_position % STEP_US == 0
    }

    /// Session invariant: established at startup and preserved by every tick.
    pub open spec fn wf(self) -> bool {
        self.in_bounds() && self.aligned()
    }

    /// Runtime check of the session invariant, for callers outside the
    /// verified world that need to guard a handler call.
    pub fn is_well_formed(&self) -> (b: bool)
        ensures
            b == self.wf(),
    {
        PULSE_MIN_US <= self.target && self.target <= PULSE_MAX_US
            && PULSE_MIN_US <= self.needle_position && self.needle_position <= PULSE_MAX_US
            && self.progress_index <= STAGES && self.needle_position % STEP_US == 0
    }
}

/// Whether the needle is within the tolerance window of the target.
pub open spec fn in_window(target: u64, needle: u64) -> bool {
    needle - TOLERANCE_US <= target <= needle + TOLERANCE_US
}

/// Direction after the bound check: touching the upper bound forces a
/// decreasing sweep, touching the lower bound forces an increasing one, and
/// anywhere between the bounds the direction is kept.
pub open spec fn next_direction(needle: u64, clockwise: bool) -> bool {
    if needle >= PULSE_MAX_US {
        false
    } else if needle <= PULSE_MIN_US {
        true
    } else {
        clockwise
    }
}

/// Needle position after one step in the given direction.
pub open spec fn next_needle(needle: u64, clockwise: bool) -> u64 {
    if clockwise {
        (needle + STEP_US) as u64
    } else {
        (needle - STEP_US) as u64
    }
}

/// Whether a Play tick counts as a match: the needle is in the window and the
/// button is held, on a tick that still has a stage to clear.
pub open spec fn is_match(data: GameData, button_high: bool) -> bool {
    data.progress_index < STAGES && in_window(data.target, data.needle_position) && button_high
}

/// The four calibration steps Setup runs, in order: everything off, needle to
/// the minimum with the indicator on, needle to the maximum with the indicator
/// off, needle to neutral with the indicator on.
pub open spec fn calibration_steps() -> Seq<CalStep> {
    seq![
        (CalStep {
            progress_all_low: true,
            pulse_us: Option::None,
            indicator: LedCmd::SetLow,
            sleep_ms: CALIBRATION_SLEEP_MS,
        }),
        (CalStep {
            progress_all_low: false,
            pulse_us: Option::Some(PULSE_MIN_US),
            indicator: LedCmd::SetHigh,
            sleep_ms: CALIBRATION_SLEEP_MS,
        }),
        (CalStep {
            progress_all_low: false,
            pulse_us: Option::Some(PULSE_MAX_US),
            indicator: LedCmd::SetLow,
            sleep_ms: CALIBRATION_SLEEP_MS,
        }),
        (CalStep {
            progress_all_low: false,
            pulse_us: Option::Some(PULSE_NEUTRAL_US),
            indicator: LedCmd::SetHigh,
            sleep_ms: CALIBRATION_SLEEP_MS,
        }),
    ]
}

} // verus!
