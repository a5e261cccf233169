use rsplayer_firmware::dac::{
    dsd_pcm_program, filter_program, sound_program, volume_step_down, volume_step_up, ChipFamily, Dac,
    DSDSamplingSpeed, FilterType, GainLevel,
};

const K97: ChipFamily = ChipFamily::Ak4497;
const K90: ChipFamily = ChipFamily::Ak4490;
use rsplayer_firmware::registers::{set_bit_value, RegOp};

fn cb(reg: u8, bit: u8, set: bool) -> RegOp {
    RegOp::ChangeBit { reg, bit, set }
}

/// Runs a program against an in-memory register file through the library's write rule.
fn run(regs: &mut [u8; 10], powered: bool, ops: &[RegOp]) {
    for op in ops {
        let reg = match *op {
            RegOp::Write { reg, .. } | RegOp::ChangeBit { reg, .. } | RegOp::ToggleBit { reg, .. } => reg,
            _ => continue,
        };
        if let Some(v) = op.value_to_write(powered, regs[reg as usize]) {
            regs[reg as usize] = v;
        }
    }
}

#[test]
fn volume_saturates() {
    assert_eq!(volume_step_up(254), 255);
    assert_eq!(volume_step_down(1), 0);
    assert_eq!(volume_step_up(100), 103);
    assert_eq!(volume_step_down(100), 97);
    assert_eq!(volume_step_up(255), 255);
    assert_eq!(volume_step_down(0), 0);
}

#[test]
fn volume_program_writes_both_channels() {
    let d = Dac::new();
    let (v, ops) = d.volume_up(254);
    assert_eq!(v, 255);
    assert_eq!(ops, vec![RegOp::Write { reg: 3, value: 255 }, RegOp::Write { reg: 4, value: 255 }]);
    let (v, _) = d.volume_down(2);
    assert_eq!(v, 0);
}

#[test]
fn filter_programs() {
    assert_eq!(filter_program(K97, FilterType::SuperSlow), vec![cb(5, 0, true), cb(1, 5, false), cb(2, 0, false)]);
    assert_eq!(filter_program(K97, FilterType::ShortDelaySlowRollOff), vec![cb(5, 0, false), cb(1, 5, true), cb(2, 0, true)]);
    assert_eq!(FilterType::from(9u8), FilterType::SharpRollOff);
    assert_eq!(FilterType::from(0xFFu8), FilterType::SharpRollOff);
    assert_eq!(FilterType::from(4u8), FilterType::SuperSlow);
    assert_eq!(FilterType::from(1u8), FilterType::SlowRollOff);
    assert_eq!(FilterType::ShortDelaySharpRollOff.as_str(), "ShD Sharp");
    assert_eq!(FilterType::SuperSlow.index(), 4);
}

#[test]
fn sound_programs_fall_back() {
    assert_eq!(sound_program(K97, 4), vec![cb(8, 0, true), cb(8, 1, true), cb(8, 2, false)]);
    assert_eq!(sound_program(K97, 0), sound_program(K97, 5));
    assert_eq!(sound_program(K97, 200), vec![cb(8, 0, false), cb(8, 1, false), cb(8, 2, true)]);
}

#[test]
fn next_filter_and_sound_cycle() {
    let mut d = Dac::new();
    let mut seen = vec![];
    for _ in 0..6 {
        let ops = d.next_filter();
        assert_eq!(ops.len(), 6);
        seen.push(d.filter_type);
    }
    assert_eq!(seen, vec![1, 2, 3, 4, 0, 1]);
    let mut d = Dac::new();
    let mut seen = vec![];
    for _ in 0..3 {
        d.next_sound_setting();
        seen.push(d.sound_setting);
    }
    assert_eq!(seen, vec![0, 1, 2]);
}

#[test]
fn dsd_pcm_cycle() {
    let mut d = Dac::new();
    let first = d.toggle_dsd_pcm();
    assert_eq!(d.dp_mode, 1);
    assert_eq!(first, dsd_pcm_program(K97, true, Some(DSDSamplingSpeed::DSD64)));
    for _ in 0..3 {
        d.toggle_dsd_pcm();
    }
    assert_eq!(d.dp_mode, 4);
    let back = d.toggle_dsd_pcm();
    assert_eq!(d.dp_mode, 0);
    assert_eq!(back, vec![cb(0, 0, false), RegOp::Delay { ms: 50 }, cb(2, 7, false), cb(9, 2, true), cb(0, 0, true)]);
}

#[test]
fn replaying_selection_programs_changes_nothing() {
    let programs = vec![
        filter_program(K97, FilterType::SlowRollOff),
        sound_program(K97, 3),
        dsd_pcm_program(K97, true, Some(DSDSamplingSpeed::DSD256)),
        dsd_pcm_program(K97, false, None),
    ];
    for p in programs {
        let mut once = [0xA5u8, 0x3C, 0xFF, 0, 0x81, 0x7E, 0x55, 0xAA, 0x0F, 0xF0];
        run(&mut once, true, &p);
        let mut twice = once;
        run(&mut twice, true, &p);
        assert_eq!(once, twice);
    }
}

#[test]
fn unpowered_chip_is_not_written() {
    let mut regs = [7u8; 10];
    run(&mut regs, false, &filter_program(K97, FilterType::SuperSlow));
    assert_eq!(regs, [7u8; 10]);
    assert_eq!(RegOp::Write { reg: 3, value: 9 }.value_to_write(false, 1), None);
}

#[test]
fn bit_changes() {
    assert_eq!(set_bit_value(0b0000_0000, 7, true), 0b1000_0000);
    assert_eq!(set_bit_value(0b1111_1111, 0, false), 0b1111_1110);
    assert_eq!(RegOp::ToggleBit { reg: 2, bit: 4 }.value_to_write(true, 0b0001_0000), Some(0));
    assert_eq!(cb(1, 5, true).value_to_write(true, 1), Some(0b0010_0001));
    assert!(cb(1, 5, true).reads_register());
    assert!(!RegOp::Delay { ms: 30 }.reads_register());
}

#[test]
fn gain_and_reset() {
    let d = Dac::new();
    assert_eq!(d.set_gain(GainLevel::V375), vec![RegOp::Write { reg: 7, value: 0b0000_1001 }]);
    assert_eq!(d.reset(), vec![cb(0, 0, false), RegOp::Delay { ms: 50 }, cb(0, 0, true)]);
    assert_eq!(d.hi_load(true), vec![cb(8, 3, true)]);
    assert_eq!(d.toggle_dsd_cutoff_freq_filter(), vec![RegOp::ToggleBit { reg: 9, bit: 1 }]);
}

#[test]
fn initialize_restores_settings() {
    let mut d = Dac::new();
    let ops = d.initialize(2, 3);
    assert_eq!(d.filter_type, 2);
    assert_eq!(d.sound_setting, 3);
    assert_eq!(ops[0], RegOp::PowerPin(false));
    assert_eq!(ops[5], RegOp::Write { reg: 0, value: 0b1001_0111 });
    assert_eq!(&ops[7..10], &filter_program(K97, FilterType::ShortDelaySharpRollOff)[..]);
    assert_eq!(&ops[10..13], &sound_program(K97, 3)[..]);
    assert_eq!(ops.len(), 18);
}

#[test]
fn ak4490_programs() {
    assert_eq!(filter_program(K90, FilterType::SuperSlow), vec![]);
    assert_eq!(filter_program(K90, FilterType::SlowRollOff), filter_program(K97, FilterType::SlowRollOff));
    assert_eq!(sound_program(K90, 0), vec![cb(8, 0, false), cb(8, 1, false), cb(8, 2, false)]);
    assert_eq!(sound_program(K90, 7), vec![cb(8, 0, false), cb(8, 1, false), cb(8, 2, true)]);
    assert_eq!(
        dsd_pcm_program(K90, true, Some(DSDSamplingSpeed::DSD128)),
        vec![cb(0, 0, false), RegOp::Delay { ms: 50 }, cb(2, 7, true), cb(6, 0, true), cb(9, 0, false), cb(0, 0, true)]
    );
    assert_eq!(
        dsd_pcm_program(K90, true, Some(DSDSamplingSpeed::DSD512)),
        vec![cb(0, 0, false), RegOp::Delay { ms: 50 }, cb(2, 7, true), cb(0, 0, true)]
    );
}

#[test]
fn ak4490_cycles() {
    let mut d = Dac::with_family(K90);
    let mut sounds = vec![];
    let mut filters = vec![];
    for _ in 0..5 {
        d.next_sound_setting();
        sounds.push(d.sound_setting);
        d.next_filter();
        filters.push(d.filter_type);
    }
    assert_eq!(sounds, vec![1, 2, 3, 0, 1]);
    assert_eq!(filters, vec![1, 2, 3, 0, 1]);
    let ops = d.initialize(1, 2);
    assert_eq!(ops[1], RegOp::Write { reg: 0, value: 0b1000_1111 });
    assert_eq!(ops.len(), 3 + 3 + 3 + 4);
}

#[test]
fn dsd_switch_is_wrapped_in_reset() {
    let ops = dsd_pcm_program(K97, true, Some(DSDSamplingSpeed::DSD512));
    assert_eq!(ops.first(), Some(&cb(0, 0, false)));
    assert_eq!(ops[1], RegOp::Delay { ms: 50 });
    assert_eq!(ops.last(), Some(&cb(0, 0, true)));
    assert_eq!(&ops[2..6], &[cb(2, 7, true), cb(9, 2, true), cb(6, 0, true), cb(9, 0, true)]);
}
