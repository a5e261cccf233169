use vstd::prelude::*;

use crate::command::{display_mode_of, input_of, Command, DisplayMode, InputSelect, PlaybackMode};
use crate::dac::{
    dp_mode_ops, filter_of, filter_ops, initialize_ops, next_dp_mode, next_filter_value,
    next_sound_value, rate_ops, rate_program, reset_ops, sound_ops, volume_down_value, volume_ops,
    volume_program, volume_step_down, volume_step_up, volume_up_value, ChipFamily, Dac, FilterType,
};
use crate::registers::RegOp;
use crate::sample_rate::SampleRate;

verus! {

/// Relays and switched lines that the processor drives.
#[derive(Clone, Copy, Debug, PartialEq, Eq, Structural)]
pub enum Relay {
    /// Mains supply of the analog stages and the DAC.
    Psu,
    /// Output relay: on passes audio, off mutes.
    MuteOut,
    /// Input selector: off routes the USB bridge, on the optical receiver.
    InputSignal,
}

/// Keys of the persistent settings store.
#[derive(Clone, Copy, Debug, PartialEq, Eq, Structural)]
pub enum SettingKey {
    Volume,
    Input,
    Filter,
    SoundSetting,
    DisplayMode,
}

/// Messages to the host player over the line protocol.
#[derive(Clone, Copy, Debug, PartialEq, Eq, Structural)]
pub enum HostMessage {
    Next,
    Prev,
    TogglePlay,
    Stop,
    Play,
    PowerOff,
    RandomToggle,
    CurVolume(u8),
}

/// What the display is asked to draw.
#[derive(Clone, Debug, PartialEq, Eq)]
pub enum Screen {
    PoweredOff,
    /// Full redraw of the layout of the current display mode.
    Baseline(DisplayMode),
    Volume(u8),
    Input(InputSelect),
    Format(SampleRate),
    Filter(FilterType),
    SoundSetting(u8),
    Track { title: String, artist: String, album: String },
    Vu { left: u8, right: u8 },
    Progress { current: String, total: String, percent: u8 },
    PlaybackMode(PlaybackMode),
}

/// One effect of handling a command, carried out in order by the runtime.
#[derive(Clone, Debug, PartialEq, Eq)]
pub enum Action {
    Relay(Relay, bool),
    Delay(u32),
    /// Publish whether the DAC is powered; register I/O is skipped while it is not.
    PowerFlag(bool),
    Register(RegOp),
    Save(SettingKey, u8),
    Send(HostMessage),
    /// Ask the sample-rate watcher to read the status lines again.
    RefreshSampleRate,
    Show(Screen),
}

/// The settings as last saved, read from the store when power is switched on.
#[derive(Clone, Copy, Debug, PartialEq, Eq, Structural)]
pub struct StoredSettings {
    pub volume: u8,
    pub input: u8,
    pub filter: u8,
    pub sound: u8,
    pub display: u8,
}

/// Wait after switching the supply on, before the DAC is addressed.
pub const PSU_SETTLE_MS: u32 = 500;

/// Time the host is given to shut down before the supply is cut.
pub const HOST_SHUTDOWN_MS: u32 = 20000;

/// The state owned by the command processor.
#[derive(Clone, Copy, Debug, PartialEq, Eq, Structural)]
pub struct Processor {
    pub power_on: bool,
    pub input: InputSelect,
    pub volume: u8,
    pub display_mode: DisplayMode,
    pub playback_mode: PlaybackMode,
    pub last_rate: SampleRate,
    pub dac: Dac,
}

pub open spec fn as_actions(ops: Seq<RegOp>) -> Seq<Action> {
    ops.map_values(|o: RegOp| Action::Register(o))
}

/// The processor at start-up and after every power-off.
pub open spec fn off_state(p: Processor) -> Processor {
    Processor { power_on: false, last_rate: SampleRate::Unknown, ..p }
}

pub open spec fn power_on_actions(family: ChipFamily, stored: StoredSettings) -> Seq<Action> {
    let input = input_of(stored.input);
    seq![Action::Relay(Relay::Psu, true), Action::Delay(PSU_SETTLE_MS), Action::PowerFlag(true)]
        + as_actions(initialize_ops(family, stored.filter, stored.sound))
        + as_actions(volume_ops(stored.volume))
        + seq![Action::Relay(Relay::InputSignal, input == InputSelect::Optical)]
        + (if input == InputSelect::Usb { seq![Action::RefreshSampleRate] } else { seq![] })
        + seq![
        Action::Relay(Relay::MuteOut, true),
        Action::Show(Screen::Baseline(display_mode_of(stored.display))),
        Action::Show(Screen::Volume(stored.volume)),
        Action::Show(Screen::Input(input)),
    ]
}

pub open spec fn power_off_actions() -> Seq<Action> {
    seq![
        Action::Relay(Relay::MuteOut, false),
        Action::Send(HostMessage::PowerOff),
        Action::Delay(HOST_SHUTDOWN_MS),
        Action::Relay(Relay::Psu, false),
        Action::PowerFlag(false),
        Action::Show(Screen::PoweredOff),
    ]
}

/// The processor after power-on: the session restored from the stored settings.
pub open spec fn restored(p: Processor, stored: StoredSettings) -> Processor {
    Processor {
        power_on: true,
        input: input_of(stored.input),
        volume: stored.volume,
        display_mode: display_mode_of(stored.display),
        last_rate: SampleRate::Unknown,
        dac: Dac { filter_type: stored.filter, sound_setting: stored.sound, ..p.dac },
        ..p
    }
}

pub open spec fn volume_actions(vol: u8) -> Seq<Action> {
    as_actions(volume_ops(vol)) + seq![
        Action::Save(SettingKey::Volume, vol),
        Action::Show(Screen::Volume(vol)),
        Action::Send(HostMessage::CurVolume(vol)),
    ]
}

/// Default format that the DAC is set to for the locally clocked input.
pub open spec fn local_rate() -> SampleRate {
    SampleRate::Pcm441
}

pub open spec fn toggle_input(p: Processor) -> (Processor, Seq<Action>) {
    match p.input {
        InputSelect::Usb => (
            Processor { input: InputSelect::Optical, last_rate: local_rate(), ..p },
            seq![
                Action::Relay(Relay::MuteOut, false),
                Action::Send(HostMessage::Stop),
                Action::Relay(Relay::InputSignal, true),
                Action::Save(SettingKey::Input, 1),
            ] + as_actions(rate_ops(p.dac.family, local_rate())) + seq![
                Action::Relay(Relay::MuteOut, true),
                Action::Show(Screen::Input(InputSelect::Optical)),
                Action::Show(Screen::Format(local_rate())),
            ],
        ),
        InputSelect::Optical => (
            Processor { input: InputSelect::Usb, last_rate: SampleRate::Unknown, ..p },
            seq![
                Action::Relay(Relay::MuteOut, false),
                Action::Send(HostMessage::Play),
                Action::Relay(Relay::InputSignal, false),
                Action::Save(SettingKey::Input, 0),
                Action::RefreshSampleRate,
                Action::Show(Screen::Input(InputSelect::Usb)),
            ],
        ),
    }
}

pub open spec fn update_rate(p: Processor, rate: SampleRate) -> (Processor, Seq<Action>) {
    if rate == SampleRate::Unknown || rate == p.last_rate {
        (p, seq![])
    } else {
        (
            Processor { last_rate: rate, ..p },
            seq![Action::Relay(Relay::MuteOut, false)] + as_actions(rate_ops(p.dac.family, rate)) + seq![
                Action::Relay(Relay::MuteOut, true),
                Action::Show(Screen::Format(rate)),
            ],
        )
    }
}

/// Handling of a command while powered on, power toggling aside.
pub open spec fn on_step(p: Processor, cmd: Command) -> (Processor, Seq<Action>) {
    match cmd {
        Command::Mute => (p, seq![Action::Relay(Relay::MuteOut, false)]),
        Command::Unmute => (p, seq![Action::Relay(Relay::MuteOut, true)]),
        Command::VolumeUp => {
            let v = volume_up_value(p.volume);
            (Processor { volume: v, ..p }, volume_actions(v))
        },
        Command::VolumeDown => {
            let v = volume_down_value(p.volume);
            (Processor { volume: v, ..p }, volume_actions(v))
        },
        Command::SetVolume(v) => (Processor { volume: v, ..p }, volume_actions(v)),
        Command::ToggleInput => toggle_input(p),
        Command::Next => (p, seq![Action::Send(HostMessage::Next)]),
        Command::Prev => (p, seq![Action::Send(HostMessage::Prev)]),
        Command::TogglePlay => (p, seq![Action::Send(HostMessage::TogglePlay)]),
        Command::ToggleRandomPlay => (p, seq![Action::Send(HostMessage::RandomToggle)]),
        Command::QueryCurrentVolume => (p, seq![Action::Send(HostMessage::CurVolume(p.volume))]),
        Command::NextDacSoundSetting => {
            let n = next_sound_value(p.dac.family, p.dac.sound_setting);
            (
                Processor { dac: Dac { sound_setting: n, ..p.dac }, ..p },
                as_actions(sound_ops(p.dac.family, n) + reset_ops()) + seq![
                    Action::Save(SettingKey::SoundSetting, n),
                    Action::Show(Screen::SoundSetting(n)),
                ],
            )
        },
        Command::NextDacFilterType => {
            let n = next_filter_value(p.dac.family, p.dac.filter_type);
            (
                Processor { dac: Dac { filter_type: n, ..p.dac }, ..p },
                as_actions(filter_ops(p.dac.family, filter_of(n)) + reset_ops()) + seq![
                    Action::Save(SettingKey::Filter, n),
                    Action::Show(Screen::Filter(filter_of(n))),
                ],
            )
        },
        Command::ToggleDacDsdPcmMode => {
            let m = next_dp_mode(p.dac.dp_mode);
            (
                Processor { dac: Dac { dp_mode: m, ..p.dac }, ..p },
                as_actions(dp_mode_ops(p.dac.family, m)),
            )
        },
        Command::ToggleDacDsdDclkPolarity => (
            p,
            seq![Action::Register(RegOp::ToggleBit { reg: 2, bit: 4 })],
        ),
        Command::ToggleDacDsdDclksClock => (
            p,
            seq![Action::Register(RegOp::ToggleBit { reg: 2, bit: 5 })],
        ),
        Command::ToggleDacDsdCutoffFreqFilter => (
            p,
            seq![Action::Register(RegOp::ToggleBit { reg: 9, bit: 1 })],
        ),
        Command::ToggleDisplayMode => {
            let m = p.display_mode.spec_next();
            (
                Processor { display_mode: m, ..p },
                seq![
                    Action::Save(SettingKey::DisplayMode, m.spec_index()),
                    Action::Show(Screen::Baseline(m)),
                ],
            )
        },
        Command::UpdateSampleRate(rate) => update_rate(p, rate),
        Command::UpdateTrack { title, artist, album } => {
            if p.input == InputSelect::Usb && p.display_mode != DisplayMode::VuMeter {
                (p, seq![Action::Show(Screen::Track { title, artist, album })])
            } else {
                (p, seq![])
            }
        },
        Command::UpdateVU { left, right } => {
            if p.input == InputSelect::Usb && p.display_mode != DisplayMode::BigInfo {
                (p, seq![Action::Show(Screen::Vu { left, right })])
            } else {
                (p, seq![])
            }
        },
        Command::UpdateProgress { current, total, percent } => {
            if p.input == InputSelect::Usb && p.display_mode != DisplayMode::VuMeter {
                (p, seq![Action::Show(Screen::Progress { current, total, percent })])
            } else {
                (p, seq![])
            }
        },
        Command::UpdatePlaybackMode(m) => (
            Processor { playback_mode: m, ..p },
            seq![Action::Show(Screen::PlaybackMode(m))],
        ),
        Command::TogglePower => (p, seq![]),
    }
}

/// The processor's transition: new state and the actions to carry out, in order.
pub open spec fn step(p: Processor, cmd: Command, stored: StoredSettings) -> (Processor, Seq<Action>) {
    match cmd {
        Command::TogglePower => if p.power_on {
            (off_state(p), power_off_actions())
        } else {
            (restored(p, stored), power_on_actions(p.dac.family, stored))
        },
        _ => if p.power_on {
            on_step(p, cmd)
        } else {
            (p, seq![])
        },
    }
}

fn push_program(actions: &mut Vec<Action>, ops: Vec<RegOp>)
    ensures
        final(actions)@ == old(actions)@ + as_actions(ops@),
{
    let ghost start = actions@;
    let mut i: usize = 0;
    while i < ops.len()
        invariant
            i <= ops.len(),
            actions@ == start + as_actions(ops@.subrange(0, i as int)),
        decreases ops.len() - i,
    {
        actions.push(Action::Register(ops[i]));
        i = i + 1;
        assert(as_actions(ops@.subrange(0, i as int)) =~= as_actions(
            ops@.subrange(0, i - 1 as int),
        ).push(Action::Register(ops@[i - 1])));
    }
    assert(ops@.subrange(0, ops@.len() as int) =~= ops@);
}

impl Processor {
    pub open spec fn wf(self) -> bool {
        self.dac.wf()
    }

    /// Powered off, driving the given DAC chip.
    pub fn with_family(family: ChipFamily) -> (r: Processor)
        ensures
            r.wf(),
            !r.power_on,
            r.input == InputSelect::Usb,
            r.last_rate == SampleRate::Unknown,
            r.display_mode == DisplayMode::Normal,
            r.dac == Dac::with_family_spec(family),
    {
        Processor {
            power_on: false,
            input: InputSelect::Usb,
            volume: 0,
            display_mode: DisplayMode::Normal,
            playback_mode: PlaybackMode::Sequential,
            last_rate: SampleRate::Unknown,
            dac: Dac::with_family(family),
        }
    }

    /// Powered off, with the DAC driver at its defaults.
    pub fn new() -> (r: Processor)
        ensures
            r.wf(),
            !r.power_on,
            r.input == InputSelect::Usb,
            r.last_rate == SampleRate::Unknown,
            r.display_mode == DisplayMode::Normal,
            r.dac == Dac::new_spec(),
    {
        Processor {
            power_on: false,
            input: InputSelect::Usb,
            volume: 0,
            display_mode: DisplayMode::Normal,
            playback_mode: PlaybackMode::Sequential,
            last_rate: SampleRate::Unknown,
            dac: Dac::new(),
        }
    }

    /// Relays released and the powered-off screen, for the start of the processor task.
    pub fn startup_actions(&self) -> (r: Vec<Action>)
        ensures
            r@ == seq![
                Action::Relay(Relay::Psu, false),
                Action::Relay(Relay::MuteOut, false),
                Action::Relay(Relay::InputSignal, false),
                Action::Show(Screen::PoweredOff),
            ],
    {
        let mut v: Vec<Action> = Vec::new();
        v.push(Action::Relay(Relay::Psu, false));
        v.push(Action::Relay(Relay::MuteOut, false));
        v.push(Action::Relay(Relay::InputSignal, false));
        v.push(Action::Show(Screen::PoweredOff));
        v
    }

    fn power_on(&mut self, stored: &StoredSettings) -> (r: Vec<Action>)
        requires
            old(self).wf(),
        ensures
            final(self).wf(),
            *final(self) == restored(*old(self), *stored),
            r@ == power_on_actions(old(self).dac.family, *stored),
    {
        let mut v: Vec<Action> = Vec::new();
        v.push(Action::Relay(Relay::Psu, true));
        v.push(Action::Delay(PSU_SETTLE_MS));
        v.push(Action::PowerFlag(true));
        let init = self.dac.initialize(stored.filter, stored.sound);
        push_program(&mut v, init);
        push_program(&mut v, volume_program(stored.volume));
        let input = InputSelect::from_index(stored.input);
        let optical = match input {
            InputSelect::Optical => true,
            InputSelect::Usb => false,
        };
        v.push(Action::Relay(Relay::InputSignal, optical));
        if !optical {
            v.push(Action::RefreshSampleRate);
        }
        let mode = DisplayMode::from_index(stored.display);
        v.push(Action::Relay(Relay::MuteOut, true));
        v.push(Action::Show(Screen::Baseline(mode)));
        v.push(Action::Show(Screen::Volume(stored.volume)));
        v.push(Action::Show(Screen::Input(input)));
        self.power_on = true;
        self.input = input;
        self.volume = stored.volume;
        self.display_mode = mode;
        self.last_rate = SampleRate::Unknown;
        assert(v@ =~= power_on_actions(old(self).dac.family, *stored));
        v
    }

    fn power_off(&mut self) -> (r: Vec<Action>)
        ensures
            *final(self) == off_state(*old(self)),
            r@ == power_off_actions(),
    {
        let mut v: Vec<Action> = Vec::new();
        v.push(Action::Relay(Relay::MuteOut, false));
        v.push(Action::Send(HostMessage::PowerOff));
        v.push(Action::Delay(HOST_SHUTDOWN_MS));
        v.push(Action::Relay(Relay::Psu, false));
        v.push(Action::PowerFlag(false));
        v.push(Action::Show(Screen::PoweredOff));
        self.power_on = false;
        self.last_rate = SampleRate::Unknown;
        assert(v@ =~= power_off_actions());
        v
    }

    fn apply_volume(&mut self, vol: u8) -> (r: Vec<Action>)
        ensures
            *final(self) == (Processor { volume: vol, ..*old(self) }),
            r@ == volume_actions(vol),
    {
        self.volume = vol;
        let mut v: Vec<Action> = Vec::new();
        push_program(&mut v, volume_program(vol));
        v.push(Action::Save(SettingKey::Volume, vol));
        v.push(Action::Show(Screen::Volume(vol)));
        v.push(Action::Send(HostMessage::CurVolume(vol)));
        assert(v@ =~= volume_actions(vol));
        v
    }

    fn toggle_input(&mut self) -> (r: Vec<Action>)
        ensures
            (*final(self), r@) == toggle_input(*old(self)),
    {
        let mut v: Vec<Action> = Vec::new();
        match self.input {
            InputSelect::Usb => {
                v.push(Action::Relay(Relay::MuteOut, false));
                v.push(Action::Send(HostMessage::Stop));
                v.push(Action::Relay(Relay::InputSignal, true));
                v.push(Action::Save(SettingKey::Input, 1));
                push_program(&mut v, rate_program(self.dac.family, SampleRate::Pcm441));
                v.push(Action::Relay(Relay::MuteOut, true));
                v.push(Action::Show(Screen::Input(InputSelect::Optical)));
                v.push(Action::Show(Screen::Format(SampleRate::Pcm441)));
                self.input = InputSelect::Optical;
                self.last_rate = SampleRate::Pcm441;
            },
            InputSelect::Optical => {
                v.push(Action::Relay(Relay::MuteOut, false));
                v.push(Action::Send(HostMessage::Play));
                v.push(Action::Relay(Relay::InputSignal, false));
                v.push(Action::Save(SettingKey::Input, 0));
                v.push(Action::RefreshSampleRate);
                v.push(Action::Show(Screen::Input(InputSelect::Usb)));
                self.input = InputSelect::Usb;
                self.last_rate = SampleRate::Unknown;
            },
        }
        assert(v@ =~= toggle_input(*old(self)).1);
        v
    }

    fn update_rate(&mut self, rate: SampleRate) -> (r: Vec<Action>)
        ensures
            (*final(self), r@) == update_rate(*old(self), rate),
    {
        let mut v: Vec<Action> = Vec::new();
        if rate == SampleRate::Unknown || rate == self.last_rate {
            assert(v@ =~= seq![]);
            return v;
        }
        v.push(Action::Relay(Relay::MuteOut, false));
        push_program(&mut v, rate_program(self.dac.family, rate));
        v.push(Action::Relay(Relay::MuteOut, true));
        v.push(Action::Show(Screen::Format(rate)));
        self.last_rate = rate;
        assert(v@ =~= update_rate(*old(self), rate).1);
        v
    }

    fn single(a: Action) -> (r: Vec<Action>)
        ensures
            r@ == seq![a],
    {
        let mut v: Vec<Action> = Vec::new();
        v.push(a);
        assert(v@ =~= seq![a]);
        v
    }

    /// Handles one command from the bus. While powered off every command but the power
    /// toggle is dropped; `stored` is what the settings store holds, used at power-on.
    pub fn process_command(&mut self, cmd: Command, stored: &StoredSettings) -> (r: Vec<Action>)
        requires
            old(self).wf(),
        ensures
            final(self).wf(),
            (*final(self), r@) == step(*old(self), cmd, *stored),
    {
        match cmd {
            Command::TogglePower => {
                if self.power_on {
                    return self.power_off();
                } else {
                    return self.power_on(stored);
                }
            },
            _ => {},
        }
        if !self.power_on {
            let v: Vec<Action> = Vec::new();
            assert(v@ =~= seq![]);
            return v;
        }
        match cmd {
            Command::Mute => Self::single(Action::Relay(Relay::MuteOut, false)),
            Command::Unmute => Self::single(Action::Relay(Relay::MuteOut, true)),
            Command::VolumeUp => {
                let v = volume_step_up(self.volume);
                self.apply_volume(v)
            },
            Command::VolumeDown => {
                let v = volume_step_down(self.volume);
                self.apply_volume(v)
            },
            Command::SetVolume(v) => self.apply_volume(v),
            Command::ToggleInput => self.toggle_input(),
            Command::Next => Self::single(Action::Send(HostMessage::Next)),
            Command::Prev => Self::single(Action::Send(HostMessage::Prev)),
            Command::TogglePlay => Self::single(Action::Send(HostMessage::TogglePlay)),
            Command::ToggleRandomPlay => Self::single(Action::Send(HostMessage::RandomToggle)),
            Command::QueryCurrentVolume => Self::single(
                Action::Send(HostMessage::CurVolume(self.volume)),
            ),
            Command::NextDacSoundSetting => {
                let mut v = self.dac.next_sound_setting();
                let n = self.dac.sound_setting;
                let mut a: Vec<Action> = Vec::new();
                push_program(&mut a, v);
                a.push(Action::Save(SettingKey::SoundSetting, n));
                a.push(Action::Show(Screen::SoundSetting(n)));
                assert(a@ =~= on_step(*old(self), cmd).1);
                a
            },
            Command::NextDacFilterType => {
                let v = self.dac.next_filter();
                let n = self.dac.filter_type;
                let mut a: Vec<Action> = Vec::new();
                push_program(&mut a, v);
                a.push(Action::Save(SettingKey::Filter, n));
                a.push(Action::Show(Screen::Filter(FilterType::from(n))));
                assert(a@ =~= on_step(*old(self), cmd).1);
                a
            },
            Command::ToggleDacDsdPcmMode => {
                let v = self.dac.toggle_dsd_pcm();
                let mut a: Vec<Action> = Vec::new();
                push_program(&mut a, v);
                a
            },
            Command::ToggleDacDsdDclkPolarity => {
                let mut a: Vec<Action> = Vec::new();
                push_program(&mut a, self.dac.toggle_dsd_dclk_polarity());
                assert(a@ =~= on_step(*old(self), cmd).1);
                a
            },
            Command::ToggleDacDsdDclksClock => {
                let mut a: Vec<Action> = Vec::new();
                push_program(&mut a, self.dac.toggle_dsd_dcks_clock());
                assert(a@ =~= on_step(*old(self), cmd).1);
                a
            },
            Command::ToggleDacDsdCutoffFreqFilter => {
                let mut a: Vec<Action> = Vec::new();
                push_program(&mut a, self.dac.toggle_dsd_cutoff_freq_filter());
                assert(a@ =~= on_step(*old(self), cmd).1);
                a
            },
            Command::ToggleDisplayMode => {
                let m = self.display_mode.next();
                self.display_mode = m;
                let mut a: Vec<Action> = Vec::new();
                a.push(Action::Save(SettingKey::DisplayMode, m.index()));
                a.push(Action::Show(Screen::Baseline(m)));
                assert(a@ =~= on_step(*old(self), cmd).1);
                a
            },
            Command::UpdateSampleRate(rate) => self.update_rate(rate),
            Command::UpdateTrack { title, artist, album } => {
                if self.input == InputSelect::Usb && self.display_mode != DisplayMode::VuMeter {
                    Self::single(Action::Show(Screen::Track { title, artist, album }))
                } else {
                    Vec::new()
                }
            },
            Command::UpdateVU { left, right } => {
                if self.input == InputSelect::Usb && self.display_mode != DisplayMode::BigInfo {
                    Self::single(Action::Show(Screen::Vu { left, right }))
                } else {
                    Vec::new()
                }
            },
            Command::UpdateProgress { current, total, percent } => {
                if self.input == InputSelect::Usb && self.display_mode != DisplayMode::VuMeter {
                    Self::single(Action::Show(Screen::Progress { current, total, percent }))
                } else {
                    Vec::new()
                }
            },
            Command::UpdatePlaybackMode(m) => {
                self.playback_mode = m;
                Self::single(Action::Show(Screen::PlaybackMode(m)))
            },
            Command::TogglePower => Vec::new(),
        }
    }
}

/// While powered off, every command other than the power toggle leaves the processor as
/// it was and produces no action: no register, relay, store or display is touched.
pub proof fn lemma_power_gate(p: Processor, cmd: Command, stored: StoredSettings)
    requires
        !p.power_on,
        !(cmd is TogglePower),
    ensures
        step(p, cmd, stored) == (p, Seq::<Action>::empty()),
{
    assert(seq![] =~= Seq::<Action>::empty());
}

/// Switching power on restores the stored volume, input, filter and sound setting: the
/// session takes them over, the DAC is programmed with them, and the input relay follows
/// the stored input.
pub proof fn lemma_power_on_restores(p: Processor, stored: StoredSettings)
    requires
        !p.power_on,
    ensures
        ({
            let (q, a) = step(p, Command::TogglePower, stored);
            &&& q.power_on
            &&& q.volume == stored.volume
            &&& q.input == input_of(stored.input)
            &&& q.dac.filter_type == stored.filter
            &&& q.dac.sound_setting == stored.sound
            &&& q.last_rate == SampleRate::Unknown
            &&& a == power_on_actions(p.dac.family, stored)
            &&& a.subrange(3, 3 + initialize_ops(p.dac.family, stored.filter, stored.sound).len() as int)
                == as_actions(initialize_ops(p.dac.family, stored.filter, stored.sound))
        }),
{
    let a = power_on_actions(p.dac.family, stored);
    let init = as_actions(initialize_ops(p.dac.family, stored.filter, stored.sound));
    assert(a.subrange(3, 3 + init.len() as int) =~= init);
}

/// A sample-rate update equal to the one just applied is dropped: the second of two equal
/// updates changes nothing and produces no action, so only one mute, reprogram and unmute
/// cycle happens.
pub proof fn lemma_repeated_rate_suppressed(p: Processor, rate: SampleRate, stored: StoredSettings)
    requires
        p.power_on,
    ensures
        ({
            let (p1, a1) = step(p, Command::UpdateSampleRate(rate), stored);
            let (p2, a2) = step(p1, Command::UpdateSampleRate(rate), stored);
            &&& p2 == p1
            &&& a2 == Seq::<Action>::empty()
            &&& (rate != SampleRate::Unknown && rate != p.last_rate) ==> a1 == seq![
                Action::Relay(Relay::MuteOut, false),
            ] + as_actions(rate_ops(p.dac.family, rate)) + seq![
                Action::Relay(Relay::MuteOut, true),
                Action::Show(Screen::Format(rate)),
            ]
        }),
{
    assert(seq![] =~= Seq::<Action>::empty());
}

} // verus!
