use vstd::prelude::*;

verus! {

/// Format of the incoming digital audio stream, as reported by the USB audio bridge.
#[derive(Clone, Copy, Debug, PartialEq, Eq, Structural)]
pub enum SampleRate {
    Pcm32,
    Pcm441,
    Pcm48,
    Pcm882,
    Pcm96,
    Pcm1764,
    Pcm192,
    Pcm3528,
    Pcm384,
    Pcm7056,
    Pcm768,
    Pcm14112,
    Pcm1536,
    Dsd64,
    Dsd128,
    Dsd256,
    Dsd512,
    Dsd1024,
    Unknown,
}

/// The four format lines read as one number, `f3` being the most significant bit.
pub open spec fn format_code(f3: bool, f2: bool, f1: bool, f0: bool) -> int {
    (if f3 { 8int } else { 0 }) + (if f2 { 4int } else { 0 }) + (if f1 { 2int } else { 0 }) + (
    if f0 { 1int } else { 0 })
}

/// The PCM rate that a format code selects while the DSD line is low.
pub open spec fn pcm_rate(code: int) -> SampleRate {
    if code == 0 {
        SampleRate::Pcm32
    } else if code == 1 {
        SampleRate::Pcm441
    } else if code == 2 {
        SampleRate::Pcm48
    } else if code == 3 {
        SampleRate::Pcm882
    } else if code == 4 {
        SampleRate::Pcm96
    } else if code == 5 {
        SampleRate::Pcm1764
    } else if code == 6 {
        SampleRate::Pcm192
    } else if code == 7 {
        SampleRate::Pcm3528
    } else if code == 8 {
        SampleRate::Pcm384
    } else if code == 9 {
        SampleRate::Pcm7056
    } else if code == 10 {
        SampleRate::Pcm768
    } else if code == 11 {
        SampleRate::Pcm14112
    } else if code == 12 {
        SampleRate::Pcm1536
    } else {
        SampleRate::Unknown
    }
}

/// The DSD multiple that a format code selects while the DSD line is high.
pub open spec fn dsd_rate(code: int) -> SampleRate {
    if code == 9 {
        SampleRate::Dsd64
    } else if code == 10 {
        SampleRate::Dsd128
    } else if code == 11 {
        SampleRate::Dsd256
    } else if code == 12 {
        SampleRate::Dsd512
    } else if code == 13 {
        SampleRate::Dsd1024
    } else {
        SampleRate::Unknown
    }
}

/// The truth table of the bridge's status lines.
pub open spec fn decode_lines(
    mute_en: bool,
    is_dsd: bool,
    f3: bool,
    f2: bool,
    f1: bool,
    f0: bool,
) -> SampleRate {
    if mute_en {
        SampleRate::Unknown
    } else if is_dsd {
        dsd_rate(format_code(f3, f2, f1, f0))
    } else {
        pcm_rate(format_code(f3, f2, f1, f0))
    }
}

impl SampleRate {
    pub open spec fn spec_is_dsd(self) -> bool {
        match self {
            SampleRate::Dsd64 | SampleRate::Dsd128 | SampleRate::Dsd256 | SampleRate::Dsd512
            | SampleRate::Dsd1024 => true,
            _ => false,
        }
    }

    /// Format, frequency and word length, as the display shows them.
    pub open spec fn labels(self) -> (Seq<char>, Seq<char>, Seq<char>) {
        match self {
            SampleRate::Pcm32 => ("PCM"@, "32 kHz"@, "32 bit"@),
            SampleRate::Pcm441 => ("PCM"@, "44.1 kHz"@, "32 bit"@),
            SampleRate::Pcm48 => ("PCM"@, "48 kHz"@, "32 bit"@),
            SampleRate::Pcm882 => ("PCM"@, "88.2 kHz"@, "32 bit"@),
            SampleRate::Pcm96 => ("PCM"@, "96 kHz"@, "32 bit"@),
            SampleRate::Pcm1764 => ("PCM"@, "176.4 kHz"@, "32 bit"@),
            SampleRate::Pcm192 => ("PCM"@, "192 kHz"@, "32 bit"@),
            SampleRate::Pcm3528 => ("PCM"@, "352.8 kHz"@, "32 bit"@),
            SampleRate::Pcm384 => ("PCM"@, "384 kHz"@, "32 bit"@),
            SampleRate::Pcm7056 => ("PCM"@, "705.6 kHz"@, "32 bit"@),
            SampleRate::Pcm768 => ("PCM"@, "768 kHz"@, "32 bit"@),
            SampleRate::Pcm14112 => ("PCM"@, "1411.2 kHz"@, "32 bit"@),
            SampleRate::Pcm1536 => ("PCM"@, "1536 kHz"@, "32 bit"@),
            SampleRate::Dsd64 => ("DSD"@, "DSD64"@, "1 bit"@),
            SampleRate::Dsd128 => ("DSD"@, "DSD128"@, "1 bit"@),
            SampleRate::Dsd256 => ("DSD"@, "DSD256"@, "1 bit"@),
            SampleRate::Dsd512 => ("DSD"@, "DSD512"@, "1 bit"@),
            SampleRate::Dsd1024 => ("DSD"@, "DSD1024"@, "1 bit"@),
            SampleRate::Unknown => (""@, ""@, ""@),
        }
    }

    /// Format, frequency and word length of this rate; three empty strings for `Unknown`.
    pub fn to_str(self) -> (r: (&'static str, &'static str, &'static str))
        ensures
            (r.0@, r.1@, r.2@) == self.labels(),
    {
        match self {
            SampleRate::Pcm32 => ("PCM", "32 kHz", "32 bit"),
            SampleRate::Pcm441 => ("PCM", "44.1 kHz", "32 bit"),
            SampleRate::Pcm48 => ("PCM", "48 kHz", "32 bit"),
            SampleRate::Pcm882 => ("PCM", "88.2 kHz", "32 bit"),
            SampleRate::Pcm96 => ("PCM", "96 kHz", "32 bit"),
            SampleRate::Pcm1764 => ("PCM", "176.4 kHz", "32 bit"),
            SampleRate::Pcm192 => ("PCM", "192 kHz", "32 bit"),
            SampleRate::Pcm3528 => ("PCM", "352.8 kHz", "32 bit"),
            SampleRate::Pcm384 => ("PCM", "384 kHz", "32 bit"),
            SampleRate::Pcm7056 => ("PCM", "705.6 kHz", "32 bit"),
            SampleRate::Pcm768 => ("PCM", "768 kHz", "32 bit"),
            SampleRate::Pcm14112 => ("PCM", "1411.2 kHz", "32 bit"),
            SampleRate::Pcm1536 => ("PCM", "1536 kHz", "32 bit"),
            SampleRate::Dsd64 => ("DSD", "DSD64", "1 bit"),
            SampleRate::Dsd128 => ("DSD", "DSD128", "1 bit"),
            SampleRate::Dsd256 => ("DSD", "DSD256", "1 bit"),
            SampleRate::Dsd512 => ("DSD", "DSD512", "1 bit"),
            SampleRate::Dsd1024 => ("DSD", "DSD1024", "1 bit"),
            SampleRate::Unknown => ("", "", ""),
        }
    }

    pub fn is_dsd(&self) -> (r: bool)
        ensures
            r == self.spec_is_dsd(),
    {
        match self {
            SampleRate::Dsd64 | SampleRate::Dsd128 | SampleRate::Dsd256 | SampleRate::Dsd512
            | SampleRate::Dsd1024 => true,
            _ => false,
        }
    }
}

/// The status lines of the USB audio bridge, as last read: `true` is a high level.
#[derive(Clone, Copy, Debug, PartialEq, Eq)]
pub struct Amanero {
    pub dsd_on: bool,
    pub mute_en: bool,
    pub f0: bool,
    pub f1: bool,
    pub f2: bool,
    pub f3: bool,
}

impl Amanero {
    pub fn new(dsd_on: bool, mute_en: bool, f0: bool, f1: bool, f2: bool, f3: bool) -> (r: Self)
        ensures
            r == (Amanero { dsd_on, mute_en, f0, f1, f2, f3 }),
    {
        Amanero { dsd_on, mute_en, f0, f1, f2, f3 }
    }

    pub open spec fn spec_sample_rate(self) -> SampleRate {
        decode_lines(self.mute_en, self.dsd_on, self.f3, self.f2, self.f1, self.f0)
    }

    /// The stream format that the six lines report.
    pub fn read_sample_rate(&self) -> (r: SampleRate)
        ensures
            r == self.spec_sample_rate(),
    {
        let code: u8 = (if self.f3 { 8u8 } else { 0u8 }) + (if self.f2 { 4u8 } else { 0u8 }) + (
        if self.f1 { 2u8 } else { 0u8 }) + (if self.f0 { 1u8 } else { 0u8 });
        if self.mute_en {
            SampleRate::Unknown
        } else if self.dsd_on {
            match code {
                9 => SampleRate::Dsd64,
                10 => SampleRate::Dsd128,
                11 => SampleRate::Dsd256,
                12 => SampleRate::Dsd512,
                13 => SampleRate::Dsd1024,
                _ => SampleRate::Unknown,
            }
        } else {
            match code {
                0 => SampleRate::Pcm32,
                1 => SampleRate::Pcm441,
                2 => SampleRate::Pcm48,
                3 => SampleRate::Pcm882,
                4 => SampleRate::Pcm96,
                5 => SampleRate::Pcm1764,
                6 => SampleRate::Pcm192,
                7 => SampleRate::Pcm3528,
                8 => SampleRate::Pcm384,
                9 => SampleRate::Pcm7056,
                10 => SampleRate::Pcm768,
                11 => SampleRate::Pcm14112,
                12 => SampleRate::Pcm1536,
                _ => SampleRate::Unknown,
            }
        }
    }
}

/// Every combination of the six lines decodes to exactly one format: `Unknown` whenever
/// mute is asserted, and otherwise exactly for the codes that the table leaves out; a
/// known result is a DSD multiple exactly when the DSD line is high.
pub proof fn lemma_decode_total(mute_en: bool, is_dsd: bool, f3: bool, f2: bool, f1: bool, f0: bool)
    ensures
        ({
            let r = decode_lines(mute_en, is_dsd, f3, f2, f1, f0);
            let code = format_code(f3, f2, f1, f0);
            &&& 0 <= code < 16
            &&& mute_en ==> r == SampleRate::Unknown
            &&& !mute_en && !is_dsd ==> (r == SampleRate::Unknown <==> code > 12)
            &&& !mute_en && is_dsd ==> (r == SampleRate::Unknown <==> !(9 <= code <= 13))
            &&& r != SampleRate::Unknown ==> (r.spec_is_dsd() <==> is_dsd)
        }),
{
}

} // verus!
