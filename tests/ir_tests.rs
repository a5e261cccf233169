use rsplayer_firmware::command::Command;
use rsplayer_firmware::ir::{IrFrame, IrReceiver, IrRemote};

fn frame(command: u8, repeat: bool) -> IrFrame {
    IrFrame { command, address: 128, repeat }
}

#[test]
fn nine_repeats_then_press_never_toggle_power() {
    let mut remote = IrRemote::new();
    for _ in 0..9 {
        assert_eq!(remote.on_frame(frame(81, true)), None);
    }
    assert_eq!(remote.on_frame(frame(81, false)), None);
    assert_eq!(remote.repeat_cnt, 0);
}

#[test]
fn eleven_repeats_toggle_power_once() {
    let mut remote = IrRemote::new();
    let mut fired = 0;
    for _ in 0..11 {
        if remote.on_frame(frame(81, true)) == Some(Command::TogglePower) {
            fired += 1;
        }
    }
    assert_eq!(fired, 1);
    assert_eq!(remote.repeat_cnt, 0);
    for _ in 0..5 {
        assert_eq!(remote.on_frame(frame(81, true)), None);
    }
    assert_eq!(remote.repeat_cnt, 5);
}

#[test]
fn volume_fires_on_every_frame() {
    let mut remote = IrRemote::new();
    assert_eq!(remote.on_frame(frame(38, false)), Some(Command::VolumeUp));
    assert_eq!(remote.on_frame(frame(38, true)), Some(Command::VolumeUp));
    assert_eq!(remote.on_frame(frame(40, true)), Some(Command::VolumeDown));
}

#[test]
fn other_buttons_fire_on_press_only() {
    let mut remote = IrRemote::new();
    assert_eq!(remote.on_frame(frame(39, false)), Some(Command::Next));
    assert_eq!(remote.on_frame(frame(39, true)), None);
    assert_eq!(remote.on_frame(frame(73, false)), Some(Command::ToggleInput));
    assert_eq!(remote.on_frame(frame(78, false)), Some(Command::ToggleRandomPlay));
    assert_eq!(remote.on_frame(frame(99, false)), None);
}

#[test]
fn foreign_remote_is_ignored() {
    let mut remote = IrRemote::new();
    let f = IrFrame { command: 38, address: 7, repeat: false };
    assert_eq!(remote.on_frame(f), None);
}

/// Feeds a full NEC frame (leader, 32 bits, LSB first) as edge gaps in microseconds.
fn send_nec(rx: &mut IrReceiver, addr: u8, cmd: u8) -> Vec<Command> {
    let bits: u32 = (addr as u32) | ((!addr as u32) << 8) | ((cmd as u32) << 16) | ((!cmd as u32) << 24);
    let mut out = vec![];
    let mut feed = |rx: &mut IrReceiver, dt: u32, edge: bool| {
        if let Some(c) = rx.on_edge(dt, edge) {
            out.push(c);
        }
    };
    feed(rx, 9000, false);
    feed(rx, 4500, true);
    for i in 0..32 {
        feed(rx, 560, false);
        feed(rx, if bits & (1 << i) != 0 { 1690 } else { 560 }, true);
    }
    out
}

#[test]
fn decodes_a_real_pulse_train() {
    let mut rx = IrReceiver::new();
    assert_eq!(send_nec(&mut rx, 128, 38), vec![Command::VolumeUp]);
    assert_eq!(send_nec(&mut rx, 128, 39), vec![Command::Next]);
    assert_eq!(send_nec(&mut rx, 5, 39), Vec::<Command>::new());
}

#[test]
fn stray_edges_give_nothing() {
    let mut rx = IrReceiver::new();
    assert_eq!(rx.on_edge(123, true), None);
    assert_eq!(rx.on_edge(u32::MAX, false), None);
    assert_eq!(rx.on_edge(u32::MAX, true), None);
}
