use rsplayer_firmware::sample_rate::{Amanero, SampleRate};

fn rate(mute_en: bool, dsd: bool, code: u8) -> SampleRate {
    Amanero::new(dsd, mute_en, code & 1 != 0, code & 2 != 0, code & 4 != 0, code & 8 != 0)
        .read_sample_rate()
}

#[test]
fn pcm_table() {
    let expected = [
        SampleRate::Pcm32,
        SampleRate::Pcm441,
        SampleRate::Pcm48,
        SampleRate::Pcm882,
        SampleRate::Pcm96,
        SampleRate::Pcm1764,
        SampleRate::Pcm192,
        SampleRate::Pcm3528,
        SampleRate::Pcm384,
        SampleRate::Pcm7056,
        SampleRate::Pcm768,
        SampleRate::Pcm14112,
        SampleRate::Pcm1536,
    ];
    for code in 0..13u8 {
        assert_eq!(rate(false, false, code), expected[code as usize]);
    }
    for code in 13..16u8 {
        assert_eq!(rate(false, false, code), SampleRate::Unknown);
    }
}

#[test]
fn dsd_table() {
    assert_eq!(rate(false, true, 9), SampleRate::Dsd64);
    assert_eq!(rate(false, true, 10), SampleRate::Dsd128);
    assert_eq!(rate(false, true, 11), SampleRate::Dsd256);
    assert_eq!(rate(false, true, 12), SampleRate::Dsd512);
    assert_eq!(rate(false, true, 13), SampleRate::Dsd1024);
    for code in (0..9u8).chain(14..16u8) {
        assert_eq!(rate(false, true, code), SampleRate::Unknown);
    }
}

#[test]
fn all_combinations_decode_to_one_value() {
    let mut known = 0;
    for bits in 0..64u8 {
        let mute = bits & 32 != 0;
        let dsd = bits & 16 != 0;
        let r = rate(mute, dsd, bits & 15);
        if mute {
            assert_eq!(r, SampleRate::Unknown);
        }
        if r != SampleRate::Unknown {
            known += 1;
            assert_eq!(r.is_dsd(), dsd);
        }
    }
    assert_eq!(known, 18);
}

#[test]
fn labels() {
    assert_eq!(SampleRate::Pcm441.to_str(), ("PCM", "44.1 kHz", "32 bit"));
    assert_eq!(SampleRate::Dsd256.to_str(), ("DSD", "DSD256", "1 bit"));
    assert_eq!(SampleRate::Unknown.to_str(), ("", "", ""));
    assert!(SampleRate::Dsd1024.is_dsd());
    assert!(!SampleRate::Pcm1536.is_dsd());
}
