use antani_sw::control::{gain_level, RenderState};
use antani_sw::events::{
    remote_event, temp_milli_from_sample, thermal_event, thermal_event_from_sample, throttle_gain,
    ButtonDebouncer, ButtonInput, ControlEvent,
};
use antani_sw::mailbox::Mailbox;
use antani_sw::matrix::LedMatrix;

#[test]
fn temperature_calibration_is_the_fixed_linear_one() {
    // 876 counts is just under the 0.706 V reference point: about 27 degrees
    assert_eq!(temp_milli_from_sample(876), 27138);
    // lower samples mean hotter: 805 counts reads just over 60 degrees
    assert_eq!(temp_milli_from_sample(805), 60376);
    // higher samples mean colder
    assert_eq!(temp_milli_from_sample(2000), -499047);
}

#[test]
fn thermal_monitor_ramps_the_throttle() {
    // at or below the 40 degree threshold nothing is emitted
    assert_eq!(thermal_event(27_000), None);
    assert_eq!(thermal_event(40_000), None);
    // above the threshold but below the ramp the commanded gain is full
    assert_eq!(thermal_event(50_000), Some(ControlEvent::ThermalThrottle(1000)));
    // the ramp loses half the power by 60 degrees
    assert_eq!(thermal_event(60_000), Some(ControlEvent::ThermalThrottle(500)));
    // and bottoms out at 65 degrees
    assert_eq!(thermal_event(65_000), Some(ControlEvent::ThermalThrottle(0)));
    assert_eq!(thermal_event(80_000), Some(ControlEvent::ThermalThrottle(0)));
    assert_eq!(throttle_gain(57_500), 750);
}

#[test]
fn thermal_tick_goes_from_sample_to_event() {
    // a cool reading emits nothing
    assert_eq!(thermal_event_from_sample(876), None);
    // a hot reading emits the ramped throttle: 60.376 degrees commands 463
    assert_eq!(
        thermal_event_from_sample(805),
        Some(ControlEvent::ThermalThrottle(463))
    );
}

#[test]
fn press_below_debounce_floor_is_noise() {
    let mut d = ButtonDebouncer::new();
    assert_eq!(d.step(ButtonInput::FallingEdge(0)), None);
    assert_eq!(d.step(ButtonInput::RisingEdge(30_000)), None);
}

#[test]
fn half_second_press_is_one_short_press() {
    let mut d = ButtonDebouncer::new();
    assert_eq!(d.step(ButtonInput::FallingEdge(0)), None);
    assert_eq!(
        d.step(ButtonInput::RisingEdge(500_000)),
        Some(ControlEvent::ShortPress)
    );
}

#[test]
fn long_press_reports_once_at_the_timeout() {
    let mut d = ButtonDebouncer::new();
    assert_eq!(d.step(ButtonInput::FallingEdge(0)), None);
    // the one-second timeout fires while the button is still held
    assert_eq!(
        d.step(ButtonInput::LongPressTimeout),
        Some(ControlEvent::LongPress)
    );
    // the eventual release emits nothing more
    assert_eq!(d.step(ButtonInput::RisingEdge(1_500_000)), None);
}

#[test]
fn press_timing_edges() {
    let mut d = ButtonDebouncer::new();
    d.step(ButtonInput::FallingEdge(1_000));
    assert_eq!(
        d.step(ButtonInput::RisingEdge(51_000)),
        Some(ControlEvent::ShortPress)
    );
    d.step(ButtonInput::FallingEdge(0));
    assert_eq!(d.step(ButtonInput::RisingEdge(49_999)), None);
    // inputs that make no sense in the current state are ignored
    assert_eq!(d.step(ButtonInput::RisingEdge(60_000)), None);
    assert_eq!(d.step(ButtonInput::LongPressTimeout), None);
}

#[test]
fn remote_codes_pass_through() {
    assert_eq!(remote_event(0xdead), ControlEvent::RemoteCommand(0xdead));
}

#[test]
fn mailbox_backpressure_and_fifo_order() {
    let mut mb = Mailbox::new();
    // eight rapid sends succeed without loss
    for code in 0..8u32 {
        assert!(mb.try_send(ControlEvent::RemoteCommand(code)));
    }
    // the ninth finds the queue full: the producer would suspend, not drop
    assert!(!mb.try_send(ControlEvent::RemoteCommand(8)));
    // one receive frees a slot
    assert_eq!(mb.try_receive(), Some(ControlEvent::RemoteCommand(0)));
    // and the retried ninth send now completes
    assert!(mb.try_send(ControlEvent::RemoteCommand(8)));
    // everything drains strictly oldest-first
    for code in 1..9u32 {
        assert_eq!(mb.try_receive(), Some(ControlEvent::RemoteCommand(code)));
    }
    assert_eq!(mb.try_receive(), None);
}

#[test]
fn short_press_cycles_scenes() {
    let mut state = RenderState::new();
    let mut mtrx = LedMatrix::new();
    for expected in [1usize, 2, 0, 1] {
        let indicator = state.apply_event(&mut mtrx, ControlEvent::ShortPress, 3);
        assert!(indicator.is_none());
        assert_eq!(state.scene_id, expected);
        assert_eq!(state.gain_id, 0);
    }
}

#[test]
fn long_press_cycles_brightness_and_shows_indicator() {
    let mut state = RenderState::new();
    let mut mtrx = LedMatrix::new();
    let expected_gains = [700u16, 500, 250, 1000];
    let expected_masks = [0b000111111u16, 0b000000111, 0b000000001, 0b111111111];
    for k in 0..4usize {
        let indicator = state.apply_event(&mut mtrx, ControlEvent::LongPress, 3);
        assert_eq!(state.gain_id, (k + 1) % 4);
        assert_eq!(mtrx.corrected_gain(), expected_gains[k]);
        assert_eq!(indicator.unwrap().pattern, expected_masks[k]);
        assert_eq!(state.scene_id, 0);
    }
    assert_eq!(gain_level(0), 1000);
}

#[test]
fn thermal_throttle_sets_only_the_raw_gain() {
    let mut state = RenderState::new();
    let mut mtrx = LedMatrix::new();
    let corrected_before = mtrx.corrected_gain();
    let indicator = state.apply_event(&mut mtrx, ControlEvent::ThermalThrottle(463), 3);
    assert!(indicator.is_none());
    assert_eq!(mtrx.raw_gain(), 463);
    assert_eq!(mtrx.corrected_gain(), corrected_before);
    assert_eq!(state.scene_id, 0);
    assert_eq!(state.gain_id, 0);
}

#[test]
fn remote_command_is_only_logged() {
    let mut state = RenderState::new();
    let mut mtrx = LedMatrix::new();
    let indicator = state.apply_event(&mut mtrx, ControlEvent::RemoteCommand(42), 3);
    assert!(indicator.is_none());
    assert_eq!(state.scene_id, 0);
    assert_eq!(state.gain_id, 0);
    assert_eq!(mtrx.raw_gain(), 1000);
}

#[test]
fn event_validity_checks_the_throttle_range() {
    assert!(ControlEvent::ThermalThrottle(1000).valid());
    assert!(!ControlEvent::ThermalThrottle(1001).valid());
    assert!(ControlEvent::ShortPress.valid());
    assert!(ControlEvent::LongPress.valid());
    assert!(ControlEvent::RemoteCommand(7).valid());
}
