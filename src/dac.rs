use vstd::prelude::*;

use crate::registers::{is_assigning, lemma_assigning_program_idempotent, run, RegOp, RESET_HOLD_MS, SETTLE_MS};
use crate::sample_rate::SampleRate;

verus! {

/// The DAC chip fitted; register programs differ between the two.
#[derive(Clone, Copy, Debug, PartialEq, Eq, Structural)]
pub enum ChipFamily {
    Ak4497,
    Ak4490,
}

/// Digital filter of the DAC.
#[derive(Clone, Copy, Debug, PartialEq, Eq, Structural)]
pub enum FilterType {
    SharpRollOff,
    SlowRollOff,
    ShortDelaySharpRollOff,
    ShortDelaySlowRollOff,
    SuperSlow,
}

/// Output gain of the DAC.
#[derive(Clone, Copy, Debug, PartialEq, Eq, Structural)]
pub enum GainLevel {
    V25,
    V28,
    V375,
}

/// DSD sampling speed tiers that the chip is told about.
#[derive(Clone, Copy, Debug, PartialEq, Eq, Structural)]
pub enum DSDSamplingSpeed {
    DSD64,
    DSD128,
    DSD256,
    DSD512,
}

/// Stored filter index to filter; any index past the table (erased storage among them)
/// falls back to `SharpRollOff`.
pub open spec fn filter_of(value: u8) -> FilterType {
    if value == 0 {
        FilterType::SharpRollOff
    } else if value == 1 {
        FilterType::SlowRollOff
    } else if value == 2 {
        FilterType::ShortDelaySharpRollOff
    } else if value == 3 {
        FilterType::ShortDelaySlowRollOff
    } else if value == 4 {
        FilterType::SuperSlow
    } else {
        FilterType::SharpRollOff
    }
}

impl From<u8> for FilterType {
    fn from(value: u8) -> (r: FilterType)
        ensures
            r == filter_of(value),
    {
        match value {
            0 => FilterType::SharpRollOff,
            1 => FilterType::SlowRollOff,
            2 => FilterType::ShortDelaySharpRollOff,
            3 => FilterType::ShortDelaySlowRollOff,
            4 => FilterType::SuperSlow,
            _ => FilterType::SharpRollOff,
        }
    }
}

impl vstd::std_specs::convert::FromSpecImpl<u8> for FilterType {
    open spec fn obeys_from_spec() -> bool {
        true
    }

    open spec fn from_spec(v: u8) -> FilterType {
        filter_of(v)
    }
}

impl FilterType {
    pub open spec fn spec_index(self) -> u8 {
        match self {
            FilterType::SharpRollOff => 0,
            FilterType::SlowRollOff => 1,
            FilterType::ShortDelaySharpRollOff => 2,
            FilterType::ShortDelaySlowRollOff => 3,
            FilterType::SuperSlow => 4,
        }
    }

    /// The index under which this filter is stored.
    pub fn index(&self) -> (r: u8)
        ensures
            r == self.spec_index(),
            filter_of(r) == *self,
    {
        match self {
            FilterType::SharpRollOff => 0,
            FilterType::SlowRollOff => 1,
            FilterType::ShortDelaySharpRollOff => 2,
            FilterType::ShortDelaySlowRollOff => 3,
            FilterType::SuperSlow => 4,
        }
    }

    pub open spec fn label(self) -> Seq<char> {
        match self {
            FilterType::SharpRollOff => "Sharp"@,
            FilterType::SlowRollOff => "Slow"@,
            FilterType::ShortDelaySharpRollOff => "ShD Sharp"@,
            FilterType::ShortDelaySlowRollOff => "ShD Slow"@,
            FilterType::SuperSlow => "SSlow"@,
        }
    }

    /// Short name for the display.
    pub fn as_str(&self) -> (r: &'static str)
        ensures
            r@ == self.label(),
    {
        match self {
            FilterType::SharpRollOff => "Sharp",
            FilterType::SlowRollOff => "Slow",
            FilterType::ShortDelaySharpRollOff => "ShD Sharp",
            FilterType::ShortDelaySlowRollOff => "ShD Slow",
            FilterType::SuperSlow => "SSlow",
        }
    }

    /// Values of bit 0 of register 5, bit 5 of register 1 and bit 0 of register 2.
    pub open spec fn bits(self) -> (bool, bool, bool) {
        match self {
            FilterType::SharpRollOff => (false, false, false),
            FilterType::SlowRollOff => (false, false, true),
            FilterType::ShortDelaySharpRollOff => (false, true, false),
            FilterType::ShortDelaySlowRollOff => (false, true, true),
            FilterType::SuperSlow => (true, false, false),
        }
    }
}

pub open spec fn change_bit(reg: u8, bit: u8, set: bool) -> RegOp {
    RegOp::ChangeBit { reg, bit, set }
}

/// Register program selecting a filter. The AK4490 has no super-slow filter and is left
/// as it is when asked for one.
pub open spec fn filter_ops(family: ChipFamily, typ: FilterType) -> Seq<RegOp> {
    let (a, b, c) = typ.bits();
    if family == ChipFamily::Ak4490 && typ == FilterType::SuperSlow {
        Seq::<RegOp>::empty()
    } else {
        seq![change_bit(5, 0, a), change_bit(1, 5, b), change_bit(2, 0, c)]
    }
}

/// Values of bits 0, 1 and 2 of register 8 for a sound setting. On the AK4497 settings 1
/// to 4 are listed and any other number selects the default; on the AK4490 settings 0 to 2
/// are listed.
pub open spec fn sound_bits(family: ChipFamily, setting_no: u8) -> (bool, bool, bool) {
    if family == ChipFamily::Ak4490 {
        if setting_no == 0 {
            (false, false, false)
        } else if setting_no == 1 {
            (true, false, false)
        } else if setting_no == 2 {
            (false, true, false)
        } else {
            (false, false, true)
        }
    } else if setting_no == 1 {
        (false, false, false)
    } else if setting_no == 2 {
        (true, false, false)
    } else if setting_no == 3 {
        (false, true, false)
    } else if setting_no == 4 {
        (true, true, false)
    } else {
        (false, false, true)
    }
}

/// Register program selecting a sound setting.
pub open spec fn sound_ops(family: ChipFamily, setting_no: u8) -> Seq<RegOp> {
    let (a, b, c) = sound_bits(family, setting_no);
    seq![change_bit(8, 0, a), change_bit(8, 1, b), change_bit(8, 2, c)]
}

/// Values of bit 0 of register 6 and bit 0 of register 9 for a DSD speed.
pub open spec fn speed_bits(speed: DSDSamplingSpeed) -> (bool, bool) {
    match speed {
        DSDSamplingSpeed::DSD64 => (false, false),
        DSDSamplingSpeed::DSD128 => (true, false),
        DSDSamplingSpeed::DSD256 => (false, true),
        DSDSamplingSpeed::DSD512 => (true, true),
    }
}

/// The mode and speed bits of a DSD/PCM switch. The AK4490 has no DSD512 tier and no
/// register 9 mode bit.
pub open spec fn dsd_mode_bits(family: ChipFamily, dsd: bool, speed: Option<DSDSamplingSpeed>) -> Seq<
    RegOp,
> {
    let mode = if family == ChipFamily::Ak4490 {
        seq![change_bit(2, 7, dsd)]
    } else {
        seq![change_bit(2, 7, dsd), change_bit(9, 2, true)]
    };
    match speed {
        Some(s) if dsd && !(family == ChipFamily::Ak4490 && s == DSDSamplingSpeed::DSD512) => {
            let (a, b) = speed_bits(s);
            mode + seq![change_bit(6, 0, a), change_bit(9, 0, b)]
        },
        _ => mode,
    }
}

/// Register program switching between DSD and PCM input, wrapped in a reset of the chip:
/// the reset bit is cleared and held for `RESET_HOLD_MS`, the mode and speed bits are
/// written, and the reset bit is set again.
pub open spec fn dsd_pcm_ops(family: ChipFamily, dsd: bool, speed: Option<DSDSamplingSpeed>) -> Seq<
    RegOp,
> {
    seq![change_bit(0, 0, false), RegOp::Delay { ms: RESET_HOLD_MS }] + dsd_mode_bits(
        family,
        dsd,
        speed,
    ) + seq![change_bit(0, 0, true)]
}

/// Register program restarting the chip so that a mode or filter change takes effect.
pub open spec fn reset_ops() -> Seq<RegOp> {
    seq![change_bit(0, 0, false), RegOp::Delay { ms: RESET_HOLD_MS }, change_bit(0, 0, true)]
}

/// Register program setting both channels to one volume.
pub open spec fn volume_ops(vol: u8) -> Seq<RegOp> {
    seq![RegOp::Write { reg: 3, value: vol }, RegOp::Write { reg: 4, value: vol }]
}

pub open spec fn gain_value(level: GainLevel) -> u8 {
    match level {
        GainLevel::V25 => 0b0000_0101,
        GainLevel::V28 => 0b0000_0001,
        GainLevel::V375 => 0b0000_1001,
    }
}

/// Value written to the first control register of the AK4497 at start-up.
pub const CONTROL1_INIT: u8 = 0b1001_0111;

/// Value written to the first control register of the AK4490 at start-up.
pub const CONTROL1_INIT_AK4490: u8 = 0b1000_1111;

/// Power cycle of the chip (the AK4490's power-down pin is not wired) followed by its first
/// configuration write.
pub open spec fn power_up_ops(family: ChipFamily) -> Seq<RegOp> {
    if family == ChipFamily::Ak4490 {
        seq![
            RegOp::Delay { ms: SETTLE_MS },
            RegOp::Write { reg: 0, value: CONTROL1_INIT_AK4490 },
            RegOp::Delay { ms: SETTLE_MS },
        ]
    } else {
        seq![
            RegOp::PowerPin(false),
            RegOp::Delay { ms: SETTLE_MS },
            RegOp::PowerPin(true),
            RegOp::Delay { ms: SETTLE_MS },
            RegOp::Delay { ms: SETTLE_MS },
            RegOp::Write { reg: 0, value: CONTROL1_INIT },
            RegOp::Delay { ms: SETTLE_MS },
        ]
    }
}

/// Register program bringing a freshly powered chip up with a filter and a sound setting, in PCM mode.
pub open spec fn initialize_ops(family: ChipFamily, filter: u8, sound: u8) -> Seq<RegOp> {
    power_up_ops(family) + filter_ops(family, filter_of(filter)) + sound_ops(family, sound)
        + dsd_pcm_ops(family, false, None)
}

/// The DSD speed tier for a stream format; none for PCM formats and for the fastest DSD rate.
pub open spec fn speed_of(rate: SampleRate) -> Option<DSDSamplingSpeed> {
    match rate {
        SampleRate::Dsd64 => Some(DSDSamplingSpeed::DSD64),
        SampleRate::Dsd128 => Some(DSDSamplingSpeed::DSD128),
        SampleRate::Dsd256 => Some(DSDSamplingSpeed::DSD256),
        SampleRate::Dsd512 => Some(DSDSamplingSpeed::DSD512),
        _ => None,
    }
}

/// Register program setting the chip up for a stream format.
pub open spec fn rate_ops(family: ChipFamily, rate: SampleRate) -> Seq<RegOp> {
    dsd_pcm_ops(family, rate.spec_is_dsd(), speed_of(rate))
}

/// Number of distinct sound settings: the AK4497 has settings 1 to 4 and its default
/// (index 0), the AK4490 settings 0 to 2 and its default (index 3).
pub open spec fn sound_setting_count(family: ChipFamily) -> u8 {
    if family == ChipFamily::Ak4490 {
        4
    } else {
        5
    }
}

/// Number of filters the chip has: the AK4490 lacks the super-slow filter (index 4).
pub open spec fn filter_count(family: ChipFamily) -> u8 {
    if family == ChipFamily::Ak4490 {
        4
    } else {
        5
    }
}

/// The sound setting after `s`, modulo the chip's number of settings.
pub open spec fn next_sound_value(family: ChipFamily, s: u8) -> u8 {
    if s as int + 1 >= sound_setting_count(family) {
        0
    } else {
        (s + 1) as u8
    }
}

/// The filter index after `f`, modulo the chip's number of filters.
pub open spec fn next_filter_value(family: ChipFamily, f: u8) -> u8 {
    if f as int + 1 >= filter_count(family) {
        0
    } else {
        (f + 1) as u8
    }
}

/// Volume change per step.
pub const VOLUME_STEP: u8 = 3;

/// Volume one step up, stopping at the top of the range.
pub open spec fn volume_up_value(current: u8) -> u8 {
    if current as int + VOLUME_STEP as int > 255 {
        255
    } else {
        (current + VOLUME_STEP) as u8
    }
}

/// Volume one step down, stopping at zero.
pub open spec fn volume_down_value(current: u8) -> u8 {
    if current < VOLUME_STEP {
        0
    } else {
        (current - VOLUME_STEP) as u8
    }
}

/// Volume one step up, saturating at 255.
pub fn volume_step_up(current: u8) -> (r: u8)
    ensures
        r == volume_up_value(current),
{
    match current.checked_add(VOLUME_STEP) {
        Some(v) => v,
        None => 255,
    }
}

/// Volume one step down, saturating at 0.
pub fn volume_step_down(current: u8) -> (r: u8)
    ensures
        r == volume_down_value(current),
{
    match current.checked_sub(VOLUME_STEP) {
        Some(v) => v,
        None => 0,
    }
}

fn push_change(v: &mut Vec<RegOp>, reg: u8, bit: u8, set: bool)
    ensures
        final(v)@ == old(v)@.push(change_bit(reg, bit, set)),
{
    v.push(RegOp::ChangeBit { reg, bit, set });
}

fn filter_bits(typ: FilterType) -> (r: (bool, bool, bool))
    ensures
        r == typ.bits(),
{
    match typ {
        FilterType::SharpRollOff => (false, false, false),
        FilterType::SlowRollOff => (false, false, true),
        FilterType::ShortDelaySharpRollOff => (false, true, false),
        FilterType::ShortDelaySlowRollOff => (false, true, true),
        FilterType::SuperSlow => (true, false, false),
    }
}

fn sound_setting_bits(family: ChipFamily, setting_no: u8) -> (r: (bool, bool, bool))
    ensures
        r == sound_bits(family, setting_no),
{
    if family == ChipFamily::Ak4490 {
        return match setting_no {
            0 => (false, false, false),
            1 => (true, false, false),
            2 => (false, true, false),
            _ => (false, false, true),
        };
    }
    match setting_no {
        1 => (false, false, false),
        2 => (true, false, false),
        3 => (false, true, false),
        4 => (true, true, false),
        _ => (false, false, true),
    }
}

fn dsd_speed_bits(speed: DSDSamplingSpeed) -> (r: (bool, bool))
    ensures
        r == speed_bits(speed),
{
    match speed {
        DSDSamplingSpeed::DSD64 => (false, false),
        DSDSamplingSpeed::DSD128 => (true, false),
        DSDSamplingSpeed::DSD256 => (false, true),
        DSDSamplingSpeed::DSD512 => (true, true),
    }
}

/// Register program selecting a filter.
pub fn filter_program(family: ChipFamily, typ: FilterType) -> (r: Vec<RegOp>)
    ensures
        r@ == filter_ops(family, typ),
{
    let (a, b, c) = filter_bits(typ);
    let mut v: Vec<RegOp> = Vec::new();
    if family == ChipFamily::Ak4490 && typ == FilterType::SuperSlow {
        assert(v@ =~= filter_ops(family, typ));
        return v;
    }
    push_change(&mut v, 5, 0, a);
    push_change(&mut v, 1, 5, b);
    push_change(&mut v, 2, 0, c);
    assert(v@ =~= filter_ops(family, typ));
    v
}

/// Register program selecting a sound setting.
pub fn sound_program(family: ChipFamily, setting_no: u8) -> (r: Vec<RegOp>)
    ensures
        r@ == sound_ops(family, setting_no),
{
    let (a, b, c) = sound_setting_bits(family, setting_no);
    let mut v: Vec<RegOp> = Vec::new();
    push_change(&mut v, 8, 0, a);
    push_change(&mut v, 8, 1, b);
    push_change(&mut v, 8, 2, c);
    assert(v@ =~= sound_ops(family, setting_no));
    v
}

/// Register program switching the chip to DSD (with a speed tier, if one is given) or to PCM.
pub fn dsd_pcm_program(family: ChipFamily, dsd: bool, speed: Option<DSDSamplingSpeed>) -> (r: Vec<
    RegOp,
>)
    ensures
        r@ == dsd_pcm_ops(family, dsd, speed),
{
    let ak4490 = family == ChipFamily::Ak4490;
    let mut v: Vec<RegOp> = Vec::new();
    push_change(&mut v, 0, 0, false);
    v.push(RegOp::Delay { ms: RESET_HOLD_MS });
    push_change(&mut v, 2, 7, dsd);
    if !ak4490 {
        push_change(&mut v, 9, 2, true);
    }
    if dsd {
        if let Some(s) = speed {
            if !(ak4490 && s == DSDSamplingSpeed::DSD512) {
                let (a, b) = dsd_speed_bits(s);
                push_change(&mut v, 6, 0, a);
                push_change(&mut v, 9, 0, b);
            }
        }
    }
    push_change(&mut v, 0, 0, true);
    assert(v@ =~= dsd_pcm_ops(family, dsd, speed));
    v
}

/// Register program restarting the chip.
pub fn reset_program() -> (r: Vec<RegOp>)
    ensures
        r@ == reset_ops(),
{
    let mut v: Vec<RegOp> = Vec::new();
    push_change(&mut v, 0, 0, false);
    v.push(RegOp::Delay { ms: RESET_HOLD_MS });
    push_change(&mut v, 0, 0, true);
    assert(v@ =~= reset_ops());
    v
}

/// Register program setting both channels to `vol`.
pub fn volume_program(vol: u8) -> (r: Vec<RegOp>)
    ensures
        r@ == volume_ops(vol),
{
    let mut v: Vec<RegOp> = Vec::new();
    v.push(RegOp::Write { reg: 3, value: vol });
    v.push(RegOp::Write { reg: 4, value: vol });
    assert(v@ =~= volume_ops(vol));
    v
}

/// Register program setting the chip up for a stream format.
pub fn rate_program(family: ChipFamily, rate: SampleRate) -> (r: Vec<RegOp>)
    ensures
        r@ == rate_ops(family, rate),
{
    let speed = match rate {
        SampleRate::Dsd64 => Some(DSDSamplingSpeed::DSD64),
        SampleRate::Dsd128 => Some(DSDSamplingSpeed::DSD128),
        SampleRate::Dsd256 => Some(DSDSamplingSpeed::DSD256),
        SampleRate::Dsd512 => Some(DSDSamplingSpeed::DSD512),
        _ => None,
    };
    dsd_pcm_program(family, rate.is_dsd(), speed)
}

/// Register-level driver state of the DAC: the chip fitted, the filter and sound setting
/// last applied and the position in the DSD/PCM test cycle. The registers themselves live
/// on the chip.
#[derive(Clone, Copy, Debug, PartialEq, Eq, Structural)]
pub struct Dac {
    pub family: ChipFamily,
    pub filter_type: u8,
    pub sound_setting: u8,
    pub dp_mode: u8,
}

impl Dac {
    /// The DSD/PCM test cycle stays within its five steps.
    pub open spec fn wf(self) -> bool {
        self.dp_mode < 5
    }

    pub open spec fn new_spec() -> Dac {
        Dac { family: ChipFamily::Ak4497, filter_type: 0, sound_setting: 4, dp_mode: 0 }
    }

    /// Driver for the AK4497, at its default filter and sound setting.
    pub fn new() -> (r: Dac)
        ensures
            r == Dac::new_spec(),
            r.wf(),
    {
        Dac { family: ChipFamily::Ak4497, filter_type: 0, sound_setting: 4, dp_mode: 0 }
    }

    pub open spec fn with_family_spec(family: ChipFamily) -> Dac {
        Dac { family, filter_type: 0, sound_setting: 0, dp_mode: 0 }
    }

    /// Driver for the given chip, at filter and sound setting 0.
    pub fn with_family(family: ChipFamily) -> (r: Dac)
        ensures
            r == Dac::with_family_spec(family),
            r.wf(),
    {
        Dac { family, filter_type: 0, sound_setting: 0, dp_mode: 0 }
    }

    /// Program that powers the chip up and restores a stored filter and sound setting.
    pub fn initialize(&mut self, filter: u8, sound: u8) -> (r: Vec<RegOp>)
        ensures
            *final(self) == (Dac { filter_type: filter, sound_setting: sound, ..*old(self) }),
            r@ == initialize_ops(old(self).family, filter, sound),
    {
        self.filter_type = filter;
        self.sound_setting = sound;
        let family = self.family;
        let mut v: Vec<RegOp> = Vec::new();
        if family == ChipFamily::Ak4490 {
            v.push(RegOp::Delay { ms: SETTLE_MS });
            v.push(RegOp::Write { reg: 0, value: CONTROL1_INIT_AK4490 });
            v.push(RegOp::Delay { ms: SETTLE_MS });
        } else {
            v.push(RegOp::PowerPin(false));
            v.push(RegOp::Delay { ms: SETTLE_MS });
            v.push(RegOp::PowerPin(true));
            v.push(RegOp::Delay { ms: SETTLE_MS });
            v.push(RegOp::Delay { ms: SETTLE_MS });
            v.push(RegOp::Write { reg: 0, value: CONTROL1_INIT });
            v.push(RegOp::Delay { ms: SETTLE_MS });
        }
        assert(v@ =~= power_up_ops(family));
        let mut f = filter_program(family, FilterType::from(filter));
        v.append(&mut f);
        let mut s = sound_program(family, sound);
        v.append(&mut s);
        let mut m = dsd_pcm_program(family, false, None);
        v.append(&mut m);
        v
    }

    /// The volume one step up from `current`, and the program that sets it.
    pub fn volume_up(&self, current: u8) -> (r: (u8, Vec<RegOp>))
        ensures
            r.0 == volume_up_value(current),
            r.1@ == volume_ops(r.0),
    {
        let new = volume_step_up(current);
        (new, volume_program(new))
    }

    /// The volume one step down from `current`, and the program that sets it.
    pub fn volume_down(&self, current: u8) -> (r: (u8, Vec<RegOp>))
        ensures
            r.0 == volume_down_value(current),
            r.1@ == volume_ops(r.0),
    {
        let new = volume_step_down(current);
        (new, volume_program(new))
    }

    pub fn set_volume(&self, vol: u8) -> (r: Vec<RegOp>)
        ensures
            r@ == volume_ops(vol),
    {
        volume_program(vol)
    }

    pub fn change_sound_setting(&self, setting_no: u8) -> (r: Vec<RegOp>)
        ensures
            r@ == sound_ops(self.family, setting_no),
    {
        sound_program(self.family, setting_no)
    }

    /// Moves to the next sound setting of the chip's cycle, programs it and restarts the chip.
    pub fn next_sound_setting(&mut self) -> (r: Vec<RegOp>)
        ensures
            *final(self) == (Dac {
                sound_setting: next_sound_value(old(self).family, old(self).sound_setting),
                ..*old(self)
            }),
            r@ == sound_ops(old(self).family, final(self).sound_setting) + reset_ops(),
    {
        let count: u8 = if self.family == ChipFamily::Ak4490 {
            4
        } else {
            5
        };
        let s = self.sound_setting;
        self.sound_setting = if s >= count - 1 {
            0
        } else {
            s + 1
        };
        let mut v = sound_program(self.family, self.sound_setting);
        let mut r = reset_program();
        v.append(&mut r);
        v
    }

    pub fn filter(&self, typ: FilterType) -> (r: Vec<RegOp>)
        ensures
            r@ == filter_ops(self.family, typ),
    {
        filter_program(self.family, typ)
    }

    /// Moves to the next filter of the chip's cycle, programs it and restarts the chip.
    pub fn next_filter(&mut self) -> (r: Vec<RegOp>)
        ensures
            *final(self) == (Dac {
                filter_type: next_filter_value(old(self).family, old(self).filter_type),
                ..*old(self)
            }),
            r@ == filter_ops(old(self).family, filter_of(final(self).filter_type)) + reset_ops(),
    {
        let count: u8 = if self.family == ChipFamily::Ak4490 {
            4
        } else {
            5
        };
        let f = self.filter_type;
        self.filter_type = if f >= count - 1 {
            0
        } else {
            f + 1
        };
        let mut v = filter_program(self.family, FilterType::from(self.filter_type));
        let mut r = reset_program();
        v.append(&mut r);
        v
    }

    pub fn hi_load(&self, flag: bool) -> (r: Vec<RegOp>)
        ensures
            r@ == seq![change_bit(8, 3, flag)],
    {
        let mut v: Vec<RegOp> = Vec::new();
        push_change(&mut v, 8, 3, flag);
        v
    }

    pub fn set_gain(&self, level: GainLevel) -> (r: Vec<RegOp>)
        ensures
            r@ == seq![RegOp::Write { reg: 7, value: gain_value(level) }],
    {
        let value: u8 = match level {
            GainLevel::V25 => 0b0000_0101,
            GainLevel::V28 => 0b0000_0001,
            GainLevel::V375 => 0b0000_1001,
        };
        let mut v: Vec<RegOp> = Vec::new();
        v.push(RegOp::Write { reg: 7, value });
        assert(v@ =~= seq![RegOp::Write { reg: 7, value: gain_value(level) }]);
        v
    }

    pub fn reset(&self) -> (r: Vec<RegOp>)
        ensures
            r@ == reset_ops(),
    {
        reset_program()
    }

    pub fn dsd_pcm(&self, dsd: bool, sampling_speed: Option<DSDSamplingSpeed>) -> (r: Vec<RegOp>)
        ensures
            r@ == dsd_pcm_ops(self.family, dsd, sampling_speed),
    {
        dsd_pcm_program(self.family, dsd, sampling_speed)
    }

    /// Steps through DSD64, DSD128, DSD256, DSD512 and back to PCM.
    pub fn toggle_dsd_pcm(&mut self) -> (r: Vec<RegOp>)
        requires
            old(self).wf(),
        ensures
            final(self).wf(),
            *final(self) == (Dac { dp_mode: next_dp_mode(old(self).dp_mode), ..*old(self) }),
            r@ == dp_mode_ops(old(self).family, final(self).dp_mode),
    {
        self.dp_mode = self.dp_mode + 1;
        let family = self.family;
        match self.dp_mode {
            1 => dsd_pcm_program(family, true, Some(DSDSamplingSpeed::DSD64)),
            2 => dsd_pcm_program(family, true, Some(DSDSamplingSpeed::DSD128)),
            3 => dsd_pcm_program(family, true, Some(DSDSamplingSpeed::DSD256)),
            4 => dsd_pcm_program(family, true, Some(DSDSamplingSpeed::DSD512)),
            _ => {
                self.dp_mode = 0;
                dsd_pcm_program(family, false, None)
            },
        }
    }

    pub fn toggle_dsd_dclk_polarity(&self) -> (r: Vec<RegOp>)
        ensures
            r@ == seq![RegOp::ToggleBit { reg: 2, bit: 4 }],
    {
        let mut v: Vec<RegOp> = Vec::new();
        v.push(RegOp::ToggleBit { reg: 2, bit: 4 });
        v
    }

    pub fn toggle_dsd_dcks_clock(&self) -> (r: Vec<RegOp>)
        ensures
            r@ == seq![RegOp::ToggleBit { reg: 2, bit: 5 }],
    {
        let mut v: Vec<RegOp> = Vec::new();
        v.push(RegOp::ToggleBit { reg: 2, bit: 5 });
        v
    }

    pub fn toggle_dsd_cutoff_freq_filter(&self) -> (r: Vec<RegOp>)
        ensures
            r@ == seq![RegOp::ToggleBit { reg: 9, bit: 1 }],
    {
        let mut v: Vec<RegOp> = Vec::new();
        v.push(RegOp::ToggleBit { reg: 9, bit: 1 });
        v
    }
}

/// Position after `m` in the DSD/PCM test cycle of five steps.
pub open spec fn next_dp_mode(m: u8) -> u8 {
    if m >= 4 {
        0
    } else {
        (m + 1) as u8
    }
}

/// Register program of a step of the DSD/PCM test cycle.
pub open spec fn dp_mode_ops(family: ChipFamily, mode: u8) -> Seq<RegOp> {
    if mode == 1 {
        dsd_pcm_ops(family, true, Some(DSDSamplingSpeed::DSD64))
    } else if mode == 2 {
        dsd_pcm_ops(family, true, Some(DSDSamplingSpeed::DSD128))
    } else if mode == 3 {
        dsd_pcm_ops(family, true, Some(DSDSamplingSpeed::DSD256))
    } else if mode == 4 {
        dsd_pcm_ops(family, true, Some(DSDSamplingSpeed::DSD512))
    } else {
        dsd_pcm_ops(family, false, None)
    }
}

/// Selecting a filter, a sound setting or a DSD/PCM mode twice in a row leaves the chip's
/// registers as selecting it once does, on either chip.
pub proof fn lemma_selection_programs_replayable(
    regs: Seq<u8>,
    family: ChipFamily,
    typ: FilterType,
    setting_no: u8,
    dsd: bool,
    speed: Option<DSDSamplingSpeed>,
)
    ensures
        run(run(regs, true, filter_ops(family, typ)), true, filter_ops(family, typ)) == run(
            regs,
            true,
            filter_ops(family, typ),
        ),
        run(run(regs, true, sound_ops(family, setting_no)), true, sound_ops(family, setting_no))
            == run(regs, true, sound_ops(family, setting_no)),
        run(run(regs, true, dsd_pcm_ops(family, dsd, speed)), true, dsd_pcm_ops(family, dsd, speed))
            == run(regs, true, dsd_pcm_ops(family, dsd, speed)),
{
    let f = filter_ops(family, typ);
    let s = sound_ops(family, setting_no);
    let m = dsd_pcm_ops(family, dsd, speed);
    assert(is_assigning(f));
    assert(is_assigning(s));
    assert(is_assigning(m));
    lemma_assigning_program_idempotent(regs, f);
    lemma_assigning_program_idempotent(regs, s);
    lemma_assigning_program_idempotent(regs, m);
}

} // verus!
