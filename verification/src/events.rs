use vstd::prelude::*;

use crate::color::GAIN_UNIT;

verus! {

/// A control event: created by one of the producers, consumed exactly once
/// by the main loop.  A thermal throttle carries the commanded raw gain in
/// thousandths (full gain means no throttling); a remote command carries the
/// decoded code.
#[derive(Clone, Copy, PartialEq, Eq, Structural, Debug)]
pub enum ControlEvent {
    ThermalThrottle(u16),
    RemoteCommand(u32),
    ShortPress,
    LongPress,
}

impl ControlEvent {
    /// A thermal throttle factor is a gain, so it stays in [0, 1].
    pub open spec fn wf(self) -> bool {
        match self {
            ControlEvent::ThermalThrottle(gain) => gain <= GAIN_UNIT,
            _ => true,
        }
    }

    pub fn valid(&self) -> (r: bool)
        ensures
            r == self.wf(),
    {
        match self {
            ControlEvent::ThermalThrottle(gain) => *gain <= GAIN_UNIT,
            _ => true,
        }
    }
}

/// Degrees are held in thousandths (millidegrees Celsius), voltages in
/// microvolts: the fixed linear calibration of the on-chip sensor reads
/// voltage = sample * 3.3 / 4096 and temperature = 27 - (voltage - 0.706) /
/// 0.001721, truncated at each division.
pub open spec fn spec_temp_milli(sample: u16) -> int {
    let microvolts = sample as int * 3300000 / 4096;
    if microvolts <= 706000 {
        27000 + (706000 - microvolts) * 1000 / 1721
    } else {
        27000 - (microvolts - 706000) * 1000 / 1721
    }
}

pub fn temp_milli_from_sample(sample: u16) -> (temp: i64)
    ensures
        temp as int == spec_temp_milli(sample),
{
    let microvolts: u64 = sample as u64 * 3300000 / 4096;
    if microvolts <= 706000 {
        27000 + (((706000 - microvolts) * 1000 / 1721) as i64)
    } else {
        27000 - (((microvolts - 706000) * 1000 / 1721) as i64)
    }
}

/// The raw-gain factor commanded at a temperature, in thousandths: full
/// power through 55 degrees, then a linear ramp losing a tenth per degree,
/// reaching zero at 65 degrees and clamped there.
pub open spec fn spec_throttle_gain(temp_milli: int) -> u16 {
    if temp_milli <= 55000 {
        1000u16
    } else {
        let ramp = (temp_milli - 55000) / 10;
        if ramp >= 1000 {
            0u16
        } else {
            (1000 - ramp) as u16
        }
    }
}

pub fn throttle_gain(temp_milli: i64) -> (gain: u16)
    ensures
        gain == spec_throttle_gain(temp_milli as int),
        gain <= GAIN_UNIT,
{
    if temp_milli <= 55000 {
        1000
    } else {
        let ramp: i64 = (temp_milli - 55000) / 10;
        if ramp >= 1000 {
            0
        } else {
            (1000 - ramp) as u16
        }
    }
}

/// What the temperature monitor emits on one tick: nothing at or below 40
/// degrees, otherwise a thermal throttle carrying the commanded gain.
pub open spec fn spec_thermal_event(temp_milli: int) -> Option<ControlEvent> {
    if temp_milli > 40000 {
        Some(ControlEvent::ThermalThrottle(spec_throttle_gain(temp_milli)))
    } else {
        None
    }
}

pub fn thermal_event(temp_milli: i64) -> (ev: Option<ControlEvent>)
    ensures
        ev == spec_thermal_event(temp_milli as int),
        ev is Some ==> ev->0.wf(),
{
    if temp_milli > 40000 {
        Some(ControlEvent::ThermalThrottle(throttle_gain(temp_milli)))
    } else {
        None
    }
}

/// One tick of the temperature monitor, from the raw sensor sample to the
/// event it emits, if any.
pub fn thermal_event_from_sample(sample: u16) -> (ev: Option<ControlEvent>)
    ensures
        ev == spec_thermal_event(spec_temp_milli(sample)),
        ev is Some ==> ev->0.wf(),
{
    let temp = temp_milli_from_sample(sample);
    thermal_event(temp)
}

/// The event emitted for a decoded remote-control code; partial or invalid
/// transmissions are discarded before this point and emit nothing.
pub fn remote_event(code: u32) -> (ev: ControlEvent)
    ensures
        ev == ControlEvent::RemoteCommand(code),
        ev.wf(),
{
    ControlEvent::RemoteCommand(code)
}

/// Presses shorter than this are debounce noise and ignored.
pub const DEBOUNCE_MIN_US: u64 = 50000;

/// A press that reaches this duration is a long press, reported the moment
/// the timeout fires.
pub const LONG_PRESS_US: u64 = 1000000;

/// The button debouncer's state: idle, or holding a press that started at
/// the recorded time, remembering whether its timeout already reported a
/// long press.
#[derive(Clone, Copy, PartialEq, Eq, Structural, Debug)]
pub enum DebounceState {
    Idle,
    Pressed { press_start_us: u64, long_reported: bool },
}

/// What the button driver observes: an edge at a time, or the long-press
/// timeout firing while the button is held.
#[derive(Clone, Copy, PartialEq, Eq, Structural, Debug)]
pub enum ButtonInput {
    FallingEdge(u64),
    RisingEdge(u64),
    LongPressTimeout,
}

/// The event a completed press of the given duration yields on release:
/// below the debounce floor it is noise; under the long-press mark it is a
/// short press; at or past the mark the timeout has already reported it.
pub open spec fn spec_press_event(duration_us: int) -> Option<ControlEvent> {
    if DEBOUNCE_MIN_US <= duration_us < LONG_PRESS_US {
        Some(ControlEvent::ShortPress)
    } else {
        None
    }
}

/// One step of the debouncer: the next state and the event emitted, if any.
/// A falling edge starts a press; the timeout firing mid-press reports the
/// long press at once, exactly once; the rising edge classifies the
/// completed press by its duration and returns to idle.
pub open spec fn spec_debounce_step(s: DebounceState, input: ButtonInput) -> (DebounceState, Option<
    ControlEvent,
>) {
    match s {
        DebounceState::Idle => match input {
            ButtonInput::FallingEdge(t) => (
                DebounceState::Pressed { press_start_us: t, long_reported: false },
                None,
            ),
            _ => (s, None),
        },
        DebounceState::Pressed { press_start_us, long_reported } => match input {
            ButtonInput::FallingEdge(_) => (s, None),
            ButtonInput::LongPressTimeout => {
                if long_reported {
                    (s, None)
                } else {
                    (
                        DebounceState::Pressed { press_start_us, long_reported: true },
                        Some(ControlEvent::LongPress),
                    )
                }
            },
            ButtonInput::RisingEdge(t) => (
                DebounceState::Idle,
                if t >= press_start_us {
                    spec_press_event(t - press_start_us)
                } else {
                    None
                },
            ),
        },
    }
}

/// The debouncer itself: feed it the observed inputs in order.
pub struct ButtonDebouncer {
    pub state: DebounceState,
}

impl ButtonDebouncer {
    pub fn new() -> (d: ButtonDebouncer)
        ensures
            d.state == DebounceState::Idle,
    {
        ButtonDebouncer { state: DebounceState::Idle }
    }

    pub fn step(&mut self, input: ButtonInput) -> (ev: Option<ControlEvent>)
        ensures
            (final(self).state, ev) == spec_debounce_step(old(self).state, input),
            ev is Some ==> ev->0.wf(),
    {
        match self.state {
            DebounceState::Idle => match input {
                ButtonInput::FallingEdge(t) => {
                    self.state = DebounceState::Pressed { press_start_us: t, long_reported: false };
                    None
                },
                _ => None,
            },
            DebounceState::Pressed { press_start_us, long_reported } => match input {
                ButtonInput::FallingEdge(_) => None,
                ButtonInput::LongPressTimeout => {
                    if long_reported {
                        None
                    } else {
                        self.state = DebounceState::Pressed { press_start_us, long_reported: true };
                        Some(ControlEvent::LongPress)
                    }
                },
                ButtonInput::RisingEdge(t) => {
                    self.state = DebounceState::Idle;
                    if t >= press_start_us && t - press_start_us >= DEBOUNCE_MIN_US && t
                        - press_start_us < LONG_PRESS_US {
                        Some(ControlEvent::ShortPress)
                    } else {
                        None
                    }
                },
            },
        }
    }
}

/// A complete press emits exactly the one event its duration calls for: a
/// press shorter than the debounce floor emits nothing; one shorter than the
/// long-press mark emits one short press; one that reaches the mark emits
/// one long press when the timeout fires and nothing more on release.
pub proof fn lemma_press_classification(start_us: u64, duration_us: u64)
    requires
        start_us + duration_us <= u64::MAX,
    ensures
        duration_us < LONG_PRESS_US ==> ({
            let pressed = spec_debounce_step(
                DebounceState::Idle,
                ButtonInput::FallingEdge(start_us),
            );
            let released = spec_debounce_step(
                pressed.0,
                ButtonInput::RisingEdge((start_us + duration_us) as u64),
            );
            pressed.1 is None && released.0 == DebounceState::Idle && released.1
                == spec_press_event(duration_us as int)
        }),
        duration_us >= LONG_PRESS_US ==> ({
            let pressed = spec_debounce_step(
                DebounceState::Idle,
                ButtonInput::FallingEdge(start_us),
            );
            let timed_out = spec_debounce_step(pressed.0, ButtonInput::LongPressTimeout);
            let released = spec_debounce_step(
                timed_out.0,
                ButtonInput::RisingEdge((start_us + duration_us) as u64),
            );
            pressed.1 is None && timed_out.1 == Some(ControlEvent::LongPress) && released.0
                == DebounceState::Idle && released.1 is None
        }),
{
}

} // verus!
