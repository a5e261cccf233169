use rsplayer_firmware::command::Command;
use rsplayer_firmware::inputs::{
    mute_pin_command, rate_command, rotary_command, ButtonHold, DebounceEvent, Debouncer, Direction, HoldPhase,
};
use rsplayer_firmware::sample_rate::SampleRate;

#[test]
fn bounce_train_completes_nothing() {
    let mut d = Debouncer::new(true, 20);
    let mut done = 0;
    let mut events = vec![DebounceEvent::Edge];
    events.extend(std::iter::repeat(DebounceEvent::Edge).take(5));
    events.push(DebounceEvent::Settled { level: true });
    for e in events {
        if d.debounce(e).is_some() {
            done += 1;
        }
    }
    assert_eq!(done, 0);
}

#[test]
fn clean_transition_completes_once() {
    let mut d = Debouncer::new(true, 20);
    assert_eq!(d.wait_ms(), 100);
    assert_eq!(d.debounce(DebounceEvent::Timeout { level: true }), None);
    assert_eq!(d.debounce(DebounceEvent::Edge), None);
    assert_eq!(d.wait_ms(), 20);
    assert_eq!(d.debounce(DebounceEvent::Settled { level: false }), Some(false));
    assert_eq!(d.debounce(DebounceEvent::Timeout { level: false }), None);
    assert_eq!(d.debounce(DebounceEvent::Timeout { level: false }), None);
}

#[test]
fn button_hold_escalates() {
    let mut b = ButtonHold::new();
    assert_eq!(b.deadline_ms(), None);
    b.on_change();
    assert_eq!(b.deadline_ms(), Some(1000));
    assert_eq!(b.on_deadline(), Some(Command::TogglePlay));
    assert_eq!(b.deadline_ms(), Some(5000));
    assert_eq!(b.on_deadline(), Some(Command::TogglePower));
    assert_eq!(b.phase, HoldPhase::LongHeld);
    b.on_change();
    assert_eq!(b.phase, HoldPhase::Released);
}

#[test]
fn short_press_fires_nothing() {
    let mut b = ButtonHold::new();
    b.on_change();
    assert_eq!(b.on_change(), None);
    assert_eq!(b.on_deadline(), None);
}

#[test]
fn simple_sources() {
    assert_eq!(rotary_command(Direction::Clockwise), Command::VolumeUp);
    assert_eq!(rotary_command(Direction::CounterClockwise), Command::VolumeDown);
    assert_eq!(mute_pin_command(true), Command::Mute);
    assert_eq!(mute_pin_command(false), Command::Unmute);
    assert_eq!(rate_command(SampleRate::Unknown), None);
    assert_eq!(rate_command(SampleRate::Pcm48), Some(Command::UpdateSampleRate(SampleRate::Pcm48)));
}

#[test]
fn bounce_train_over_several_windows_completes_nothing() {
    let mut d = Debouncer::new(false, 20);
    for bounces in [0usize, 3, 1, 7] {
        assert_eq!(d.debounce(DebounceEvent::Edge), None);
        for _ in 0..bounces {
            assert_eq!(d.debounce(DebounceEvent::Edge), None);
        }
        assert_eq!(d.debounce(DebounceEvent::Settled { level: false }), None);
    }
    assert_eq!(d.wait_ms(), 100);
}
