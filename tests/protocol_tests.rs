use rsplayer_firmware::command::{Command, PlaybackMode};
use rsplayer_firmware::fmtbuf::FmtBuf;
use rsplayer_firmware::line::LineAssembler;
use rsplayer_firmware::processor::HostMessage;
use rsplayer_firmware::protocol::{
    decimal_string, encode_message, encode_vu, parse_command, parse_line, parse_u8_text,
    split_fields, trim_text,
};

#[test]
fn vu_round_trip() {
    let line = encode_vu(120, 130);
    assert_eq!(line, "SetVU(120|130)");
    assert_eq!(parse_command(&line), Some(Command::UpdateVU { left: 120, right: 130 }));
    assert_eq!(parse_line(b"SetVU(120|130)"), Some(Command::UpdateVU { left: 120, right: 130 }));
}

#[test]
fn malformed_lines_give_nothing() {
    assert_eq!(parse_line(b"SetVU(120|130"), None);
    assert_eq!(parse_line(b"SetVU(12a|130)"), None);
    assert_eq!(parse_line(b"SetVU(120)"), None);
    assert_eq!(parse_line(b"SetVol(256)"), None);
    assert_eq!(parse_line(b"SetVol()"), None);
    assert_eq!(parse_line(b"Hello"), None);
    assert_eq!(parse_line(b""), None);
    assert_eq!(parse_line(&[0xff, 0xfe]), None);
}

#[test]
fn volume_lines() {
    assert_eq!(parse_line(b"SetVol(42)"), Some(Command::SetVolume(42)));
    assert_eq!(parse_line(b"  SetVol(+007)\r"), Some(Command::SetVolume(7)));
    assert_eq!(parse_line(b"VolUp"), Some(Command::VolumeUp));
    assert_eq!(parse_line(b"VolDown "), Some(Command::VolumeDown));
    assert_eq!(parse_line(b"QueryCurVolume"), Some(Command::QueryCurrentVolume));
    assert_eq!(parse_line(b"QueryCurVolumeNow"), Some(Command::QueryCurrentVolume));
    assert_eq!(parse_line(b"VolUpp"), None);
}

#[test]
fn track_and_progress_lines() {
    assert_eq!(
        parse_line("SetTrack(Für Elise|Beethoven|Piano)".as_bytes()),
        Some(Command::UpdateTrack {
            title: "Für Elise".to_string(),
            artist: "Beethoven".to_string(),
            album: "Piano".to_string(),
        })
    );
    assert_eq!(parse_line(b"SetTrack(a|b)"), None);
    assert_eq!(
        parse_line(b"SetProgress(1:02|3:45|27)"),
        Some(Command::UpdateProgress { current: "1:02".to_string(), total: "3:45".to_string(), percent: 27 })
    );
    assert_eq!(parse_line(b"SetProgress(1:02|3:45|101)"), None);
    assert_eq!(parse_line(b"SetPlaybackMode(LoopQueue)"), Some(Command::UpdatePlaybackMode(PlaybackMode::LoopQueue)));
    assert_eq!(parse_line(b"SetPlaybackMode(Shuffle)"), None);
}

#[test]
fn text_helpers() {
    assert_eq!(trim_text(" \t ab c \n"), "ab c");
    assert_eq!(trim_text("   "), "");
    assert_eq!(trim_text("\u{0b}VolUp\u{0b}"), "VolUp");
    assert_eq!(split_fields("a||b"), vec!["a".to_string(), String::new(), "b".to_string()]);
    assert_eq!(split_fields(""), vec![String::new()]);
    assert_eq!(parse_u8_text("255"), Some(255));
    assert_eq!(parse_u8_text("0000255"), Some(255));
    assert_eq!(parse_u8_text("+"), None);
    assert_eq!(parse_u8_text("-1"), None);
    assert_eq!(parse_u8_text("99999999999"), None);
    assert_eq!(decimal_string(0), "0");
    assert_eq!(decimal_string(9), "9");
    assert_eq!(decimal_string(10), "10");
    assert_eq!(decimal_string(207), "207");
}

#[test]
fn messages_to_host() {
    assert_eq!(encode_message(HostMessage::CurVolume(42)), "CurVolume=42\n");
    assert_eq!(encode_message(HostMessage::PowerOff), "PowerOff\n");
    assert_eq!(encode_message(HostMessage::RandomToggle), "RandomToggle\n");
}

#[test]
fn assembler_splits_lines() {
    let mut a = LineAssembler::new();
    let mut out = vec![];
    for &b in b"VolUp\nSetVol(9)\nbogus\n".iter() {
        if let Some(c) = a.push_byte(b) {
            out.push(c);
        }
    }
    assert_eq!(out, vec![Command::VolumeUp, Command::SetVolume(9)]);
}

#[test]
fn assembler_drops_overflow() {
    let mut a = LineAssembler::new();
    for &b in b"SetVol(1)".iter() {
        assert_eq!(a.push_byte(b), None);
    }
    for _ in 0..200 {
        assert_eq!(a.push_byte(b'x'), None);
    }
    assert_eq!(a.push_byte(b'\n'), None);
    for &b in b"VolDown".iter() {
        a.push_byte(b);
    }
    assert_eq!(a.push_byte(b'\n'), Some(Command::VolumeDown));
}

#[test]
fn fmtbuf_keeps_what_fits() {
    let mut f = FmtBuf::new();
    f.write_str("CurVolume=");
    f.write_str("255");
    assert_eq!(f.as_str(), "CurVolume=255");
    f.write_str("ééé");
    assert_eq!(f.buf.len(), 16);
    assert_eq!(&f.buf[13..], &"ééé".as_bytes()[..3]);
    let mut g = FmtBuf::new();
    g.write_str("0123456789abcdefXYZ");
    assert_eq!(g.as_str(), "0123456789abcdef");
    g.write_str("more");
    assert_eq!(g.as_str(), "0123456789abcdef");
}
