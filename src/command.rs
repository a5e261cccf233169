use vstd::prelude::*;

use crate::sample_rate::SampleRate;

verus! {

/// Play order of the host's queue.
#[derive(Clone, Copy, Debug, PartialEq, Eq, Structural)]
pub enum PlaybackMode {
    Random,
    Sequential,
    LoopSingle,
    LoopQueue,
}

/// What the main area of the display shows.
#[derive(Clone, Copy, Debug, PartialEq, Eq, Structural)]
pub enum DisplayMode {
    Normal,
    VuMeter,
    BigInfo,
}

/// Audio input routed to the DAC.
#[derive(Clone, Copy, Debug, PartialEq, Eq, Structural)]
pub enum InputSelect {
    /// I2S from the USB audio bridge, clocked by the bridge; the host sends metadata for it.
    Usb,
    /// The optical receiver, clocked locally; no metadata comes with it.
    Optical,
}

/// An intent sent by an input source to the command processor.
#[derive(Clone, Debug, PartialEq, Eq)]
pub enum Command {
    Mute,
    Unmute,
    TogglePower,
    VolumeUp,
    VolumeDown,
    SetVolume(u8),
    ToggleInput,
    Next,
    Prev,
    TogglePlay,
    NextDacSoundSetting,
    NextDacFilterType,
    ToggleDacDsdPcmMode,
    ToggleDacDsdDclkPolarity,
    ToggleDacDsdCutoffFreqFilter,
    ToggleDacDsdDclksClock,
    QueryCurrentVolume,
    ToggleRandomPlay,
    ToggleDisplayMode,
    UpdateSampleRate(SampleRate),
    UpdateTrack { title: String, artist: String, album: String },
    UpdateVU { left: u8, right: u8 },
    UpdateProgress { current: String, total: String, percent: u8 },
    UpdatePlaybackMode(PlaybackMode),
}

/// A command with its text fields seen as character sequences.
pub enum CommandView {
    Track { title: Seq<char>, artist: Seq<char>, album: Seq<char> },
    Progress { current: Seq<char>, total: Seq<char>, percent: u8 },
    /// Any command without text fields, as it is.
    Plain(Command),
}

impl View for Command {
    type V = CommandView;

    open spec fn view(&self) -> CommandView {
        match self {
            Command::UpdateTrack { title, artist, album } => CommandView::Track {
                title: title@,
                artist: artist@,
                album: album@,
            },
            Command::UpdateProgress { current, total, percent } => CommandView::Progress {
                current: current@,
                total: total@,
                percent: *percent,
            },
            _ => CommandView::Plain(*self),
        }
    }
}

pub open spec fn display_mode_of(value: u8) -> DisplayMode {
    if value == 1 {
        DisplayMode::VuMeter
    } else if value == 2 {
        DisplayMode::BigInfo
    } else {
        DisplayMode::Normal
    }
}

impl DisplayMode {
    /// Stored index to mode; an unknown index gives `Normal`.
    pub fn from_index(value: u8) -> (r: DisplayMode)
        ensures
            r == display_mode_of(value),
    {
        match value {
            1 => DisplayMode::VuMeter,
            2 => DisplayMode::BigInfo,
            _ => DisplayMode::Normal,
        }
    }

    pub open spec fn spec_index(self) -> u8 {
        match self {
            DisplayMode::Normal => 0,
            DisplayMode::VuMeter => 1,
            DisplayMode::BigInfo => 2,
        }
    }

    pub fn index(&self) -> (r: u8)
        ensures
            r == self.spec_index(),
            display_mode_of(r) == *self,
    {
        match self {
            DisplayMode::Normal => 0,
            DisplayMode::VuMeter => 1,
            DisplayMode::BigInfo => 2,
        }
    }

    pub open spec fn spec_next(self) -> DisplayMode {
        match self {
            DisplayMode::Normal => DisplayMode::VuMeter,
            DisplayMode::VuMeter => DisplayMode::BigInfo,
            DisplayMode::BigInfo => DisplayMode::Normal,
        }
    }

    /// Normal, then VU meter, then big info, then normal again.
    pub fn next(&self) -> (r: DisplayMode)
        ensures
            r == self.spec_next(),
    {
        match self {
            DisplayMode::Normal => DisplayMode::VuMeter,
            DisplayMode::VuMeter => DisplayMode::BigInfo,
            DisplayMode::BigInfo => DisplayMode::Normal,
        }
    }
}

pub open spec fn input_of(value: u8) -> InputSelect {
    if value == 0 {
        InputSelect::Usb
    } else {
        InputSelect::Optical
    }
}

impl InputSelect {
    /// Stored index to input: 0 is the USB bridge, anything else the optical receiver.
    pub fn from_index(value: u8) -> (r: InputSelect)
        ensures
            r == input_of(value),
    {
        if value == 0 {
            InputSelect::Usb
        } else {
            InputSelect::Optical
        }
    }

    pub open spec fn spec_index(self) -> u8 {
        match self {
            InputSelect::Usb => 0,
            InputSelect::Optical => 1,
        }
    }

    pub fn index(&self) -> (r: u8)
        ensures
            r == self.spec_index(),
            input_of(r) == *self,
    {
        match self {
            InputSelect::Usb => 0,
            InputSelect::Optical => 1,
        }
    }
}

} // verus!
