use rsplayer_firmware::command::{Command, DisplayMode, InputSelect};
use rsplayer_firmware::dac::{filter_program, rate_program, volume_program, ChipFamily, FilterType};
use rsplayer_firmware::processor::{Action, HostMessage, Processor, Relay, Screen, SettingKey, StoredSettings};
use rsplayer_firmware::registers::RegOp;
use rsplayer_firmware::sample_rate::SampleRate;

const STORED: StoredSettings = StoredSettings { volume: 77, input: 0, filter: 3, sound: 2, display: 1 };

fn powered() -> Processor {
    let mut p = Processor::new();
    p.process_command(Command::TogglePower, &STORED);
    p
}

fn registers(actions: &[Action]) -> Vec<RegOp> {
    actions
        .iter()
        .filter_map(|a| match a {
            Action::Register(op) => Some(*op),
            _ => None,
        })
        .collect()
}

#[test]
fn powered_off_drops_commands() {
    let commands = vec![
        Command::VolumeUp,
        Command::SetVolume(3),
        Command::ToggleInput,
        Command::NextDacFilterType,
        Command::UpdateSampleRate(SampleRate::Dsd64),
        Command::ToggleDisplayMode,
        Command::Mute,
    ];
    let mut p = Processor::new();
    let before = p;
    for c in commands {
        assert_eq!(p.process_command(c, &STORED), Vec::<Action>::new());
        assert_eq!(p, before);
    }
}

#[test]
fn power_on_restores_stored_settings() {
    let mut p = Processor::new();
    let actions = p.process_command(Command::TogglePower, &STORED);
    assert!(p.power_on);
    assert_eq!(p.volume, 77);
    assert_eq!(p.input, InputSelect::Usb);
    assert_eq!(p.dac.filter_type, 3);
    assert_eq!(p.dac.sound_setting, 2);
    assert_eq!(p.display_mode, DisplayMode::VuMeter);
    assert_eq!(&actions[..3], &[Action::Relay(Relay::Psu, true), Action::Delay(500), Action::PowerFlag(true)]);
    let regs = registers(&actions);
    assert_eq!(regs.len(), 18 + 2);
    assert_eq!(&regs[7..10], &filter_program(ChipFamily::Ak4497, FilterType::ShortDelaySlowRollOff)[..]);
    assert_eq!(&regs[regs.len() - 2..], &volume_program(77)[..]);
    assert!(actions.contains(&Action::Relay(Relay::InputSignal, false)));
    assert!(actions.contains(&Action::RefreshSampleRate));
    assert_eq!(actions.last(), Some(&Action::Show(Screen::Input(InputSelect::Usb))));
}

#[test]
fn power_on_with_optical_input_skips_refresh() {
    let stored = StoredSettings { input: 0xFF, ..STORED };
    let mut p = Processor::new();
    let actions = p.process_command(Command::TogglePower, &stored);
    assert_eq!(p.input, InputSelect::Optical);
    assert!(actions.contains(&Action::Relay(Relay::InputSignal, true)));
    assert!(!actions.contains(&Action::RefreshSampleRate));
}

#[test]
fn power_off_sequence() {
    let mut p = powered();
    p.process_command(Command::UpdateSampleRate(SampleRate::Pcm96), &STORED);
    let actions = p.process_command(Command::TogglePower, &STORED);
    assert_eq!(
        actions,
        vec![
            Action::Relay(Relay::MuteOut, false),
            Action::Send(HostMessage::PowerOff),
            Action::Delay(20000),
            Action::Relay(Relay::Psu, false),
            Action::PowerFlag(false),
            Action::Show(Screen::PoweredOff),
        ]
    );
    assert!(!p.power_on);
    assert_eq!(p.last_rate, SampleRate::Unknown);
}

#[test]
fn repeated_sample_rate_is_applied_once() {
    let mut p = powered();
    let first = p.process_command(Command::UpdateSampleRate(SampleRate::Dsd128), &STORED);
    let mut expected = vec![Action::Relay(Relay::MuteOut, false)];
    expected.extend(rate_program(ChipFamily::Ak4497, SampleRate::Dsd128).into_iter().map(Action::Register));
    expected.push(Action::Relay(Relay::MuteOut, true));
    expected.push(Action::Show(Screen::Format(SampleRate::Dsd128)));
    assert_eq!(first, expected);
    let second = p.process_command(Command::UpdateSampleRate(SampleRate::Dsd128), &STORED);
    assert_eq!(second, Vec::<Action>::new());
    assert_eq!(p.process_command(Command::UpdateSampleRate(SampleRate::Unknown), &STORED), Vec::<Action>::new());
}

#[test]
fn volume_commands_saturate_and_mirror() {
    let mut p = powered();
    p.process_command(Command::SetVolume(254), &STORED);
    let actions = p.process_command(Command::VolumeUp, &STORED);
    assert_eq!(p.volume, 255);
    assert_eq!(
        &actions[2..],
        &[
            Action::Save(SettingKey::Volume, 255),
            Action::Show(Screen::Volume(255)),
            Action::Send(HostMessage::CurVolume(255)),
        ]
    );
    p.process_command(Command::SetVolume(1), &STORED);
    p.process_command(Command::VolumeDown, &STORED);
    assert_eq!(p.volume, 0);
    assert_eq!(
        p.process_command(Command::QueryCurrentVolume, &STORED),
        vec![Action::Send(HostMessage::CurVolume(0))]
    );
}

#[test]
fn input_toggle() {
    let mut p = powered();
    let to_optical = p.process_command(Command::ToggleInput, &STORED);
    assert_eq!(p.input, InputSelect::Optical);
    assert_eq!(to_optical[0], Action::Relay(Relay::MuteOut, false));
    assert!(to_optical.contains(&Action::Save(SettingKey::Input, 1)));
    assert_eq!(registers(&to_optical), rate_program(ChipFamily::Ak4497, SampleRate::Pcm441));
    let to_usb = p.process_command(Command::ToggleInput, &STORED);
    assert_eq!(p.input, InputSelect::Usb);
    assert!(to_usb.contains(&Action::RefreshSampleRate));
    assert!(to_usb.contains(&Action::Send(HostMessage::Play)));
    assert_eq!(p.last_rate, SampleRate::Unknown);
}

#[test]
fn display_mode_cycles_and_gates_updates() {
    let mut p = powered();
    assert_eq!(p.display_mode, DisplayMode::VuMeter);
    let track = Command::UpdateTrack { title: "t".to_string(), artist: "a".to_string(), album: "b".to_string() };
    assert_eq!(p.process_command(track.clone(), &STORED), Vec::<Action>::new());
    assert_eq!(
        p.process_command(Command::UpdateVU { left: 1, right: 2 }, &STORED),
        vec![Action::Show(Screen::Vu { left: 1, right: 2 })]
    );
    assert_eq!(
        p.process_command(Command::ToggleDisplayMode, &STORED),
        vec![Action::Save(SettingKey::DisplayMode, 2), Action::Show(Screen::Baseline(DisplayMode::BigInfo))]
    );
    assert_eq!(p.process_command(track.clone(), &STORED).len(), 1);
    assert_eq!(p.process_command(Command::UpdateVU { left: 1, right: 2 }, &STORED), Vec::<Action>::new());
    p.process_command(Command::ToggleDisplayMode, &STORED);
    assert_eq!(p.display_mode, DisplayMode::Normal);
    p.process_command(Command::ToggleInput, &STORED);
    assert_eq!(p.process_command(track, &STORED), Vec::<Action>::new());
}

#[test]
fn filter_advance_persists_index() {
    let mut p = powered();
    let actions = p.process_command(Command::NextDacFilterType, &STORED);
    assert_eq!(p.dac.filter_type, 4);
    let n = actions.len();
    assert_eq!(&actions[n - 2..], &[Action::Save(SettingKey::Filter, 4), Action::Show(Screen::Filter(FilterType::SuperSlow))]);
    p.process_command(Command::NextDacFilterType, &STORED);
    assert_eq!(p.dac.filter_type, 0);
    let actions = p.process_command(Command::NextDacSoundSetting, &STORED);
    assert_eq!(p.dac.sound_setting, 3);
    assert!(actions.contains(&Action::Save(SettingKey::SoundSetting, 3)));
}

#[test]
fn startup_releases_relays() {
    let p = Processor::new();
    assert_eq!(p.startup_actions().last(), Some(&Action::Show(Screen::PoweredOff)));
    assert_eq!(p.startup_actions().len(), 4);
}

#[test]
fn ak4490_processor_uses_its_programs() {
    let mut p = Processor::with_family(ChipFamily::Ak4490);
    p.process_command(Command::TogglePower, &STORED);
    let actions = p.process_command(Command::UpdateSampleRate(SampleRate::Dsd64), &STORED);
    assert_eq!(registers(&actions), rate_program(ChipFamily::Ak4490, SampleRate::Dsd64));
    assert_eq!(registers(&actions).len(), 6);
}

#[test]
fn erased_settings_restore_defaults() {
    let erased = StoredSettings { volume: 0xFF, input: 0xFF, filter: 0xFF, sound: 0xFF, display: 0xFF };
    let mut p = Processor::with_family(ChipFamily::Ak4490);
    let actions = p.process_command(Command::TogglePower, &erased);
    assert_eq!(p.display_mode, DisplayMode::Normal);
    assert_eq!(p.input, InputSelect::Optical);
    let regs = registers(&actions);
    assert_eq!(&regs[3..6], &filter_program(ChipFamily::Ak4490, FilterType::SharpRollOff)[..]);
}
