use vstd::prelude::*;

use crate::command::{Command, CommandView, PlaybackMode};
use crate::processor::HostMessage;
use vstd::string::StringSliceAdditionalSpecFns;
use vstd::utf8::{decode_utf8, encode_utf8_decode_utf8, valid_utf8};
use vstd::string::StrSliceExecFns;

verus! {

/// Relies on `core::str::from_utf8`: it succeeds exactly on valid UTF-8, and the string it
/// returns borrows the same bytes.
#[verifier::external_body]
pub(crate) fn utf8_str(b: &[u8]) -> (r: Option<&str>)
    ensures
        r is Some <==> valid_utf8(b@),
        r matches Some(s) ==> s.spec_bytes() == b@,
{
    core::str::from_utf8(b).ok()
}

/// ASCII whitespace, as trimmed from both ends of a line.
pub open spec fn is_space(c: char) -> bool {
    c == ' ' || c == '\t' || c == '\n' || c == '\x0b' || c == '\r' || c == '\x0c'
}

pub open spec fn trim_start(s: Seq<char>) -> Seq<char>
    decreases s.len(),
{
    if s.len() > 0 && is_space(s[0]) {
        trim_start(s.drop_first())
    } else {
        s
    }
}

pub open spec fn trim_end(s: Seq<char>) -> Seq<char>
    decreases s.len(),
{
    if s.len() > 0 && is_space(s.last()) {
        trim_end(s.drop_last())
    } else {
        s
    }
}

/// `s` without leading and trailing whitespace.
pub open spec fn trim(s: Seq<char>) -> Seq<char> {
    trim_end(trim_start(s))
}

pub open spec fn has_prefix(s: Seq<char>, p: Seq<char>) -> bool {
    p.len() <= s.len() && s.subrange(0, p.len() as int) == p
}

/// The text between `name(` and a closing `)` that ends the line, if the line has that shape.
/// `open` is the name with its opening parenthesis.
pub open spec fn call_args(t: Seq<char>, open: Seq<char>) -> Option<Seq<char>> {
    if t.len() >= open.len() + 1 && has_prefix(t, open) && t.last() == ')' {
        Some(t.subrange(open.len() as int, t.len() - 1))
    } else {
        None
    }
}

/// `s` cut at every `|`.
pub open spec fn split_bar(s: Seq<char>) -> Seq<Seq<char>>
    decreases s.len(),
{
    if s.len() == 0 {
        seq![Seq::<char>::empty()]
    } else {
        let init = split_bar(s.drop_last());
        if s.last() == '|' {
            init.push(Seq::<char>::empty())
        } else {
            init.update(init.len() - 1, init.last().push(s.last()))
        }
    }
}

pub open spec fn is_digit(c: char) -> bool {
    '0' <= c <= '9'
}

pub open spec fn all_digits(s: Seq<char>) -> bool {
    forall|i: int| 0 <= i < s.len() ==> is_digit(#[trigger] s[i])
}

/// The number that a string of decimal digits denotes.
pub open spec fn decimal_value(s: Seq<char>) -> nat
    decreases s.len(),
{
    if s.len() == 0 {
        0
    } else {
        decimal_value(s.drop_last()) * 10 + (s.last() as nat - '0' as nat) as nat
    }
}

/// A byte written in decimal: an optional `+`, then at least one digit, with a value up
/// to 255; leading zeros are allowed.
/// `s` without a leading `+` sign.
pub open spec fn unsigned_part(s: Seq<char>) -> Seq<char> {
    if s.len() > 0 && s[0] == '+' {
        s.drop_first()
    } else {
        s
    }
}

pub open spec fn parse_u8(s: Seq<char>) -> Option<u8> {
    let d = unsigned_part(s);
    if d.len() > 0 && all_digits(d) && decimal_value(d) <= 255 {
        Some(decimal_value(d) as u8)
    } else {
        None
    }
}

pub open spec fn playback_mode_named(s: Seq<char>) -> Option<PlaybackMode> {
    if s == "Random"@ {
        Some(PlaybackMode::Random)
    } else if s == "Sequential"@ {
        Some(PlaybackMode::Sequential)
    } else if s == "LoopSingle"@ {
        Some(PlaybackMode::LoopSingle)
    } else if s == "LoopQueue"@ {
        Some(PlaybackMode::LoopQueue)
    } else {
        None
    }
}

pub open spec fn parse_vu(args: Seq<char>) -> Option<CommandView> {
    let parts = split_bar(args);
    if parts.len() == 2 && parse_u8(parts[0]) is Some && parse_u8(parts[1]) is Some {
        Some(
            CommandView::Plain(
                Command::UpdateVU {
                    left: parse_u8(parts[0])->Some_0,
                    right: parse_u8(parts[1])->Some_0,
                },
            ),
        )
    } else {
        None
    }
}

pub open spec fn parse_track(args: Seq<char>) -> Option<CommandView> {
    let parts = split_bar(args);
    if parts.len() == 3 {
        Some(CommandView::Track { title: parts[0], artist: parts[1], album: parts[2] })
    } else {
        None
    }
}

pub open spec fn parse_progress(args: Seq<char>) -> Option<CommandView> {
    let parts = split_bar(args);
    if parts.len() == 3 && parse_u8(parts[2]) is Some && parse_u8(parts[2])->Some_0 <= 100 {
        Some(
            CommandView::Progress {
                current: parts[0],
                total: parts[1],
                percent: parse_u8(parts[2])->Some_0,
            },
        )
    } else {
        None
    }
}

/// The command that a line from the host asks for; `None` for anything unrecognised or
/// malformed.
pub open spec fn parse_text(line: Seq<char>) -> Option<CommandView> {
    let t = trim(line);
    if call_args(t, "SetVol("@) is Some {
        match parse_u8(call_args(t, "SetVol("@)->Some_0) {
            Some(v) => Some(CommandView::Plain(Command::SetVolume(v))),
            None => None,
        }
    } else if has_prefix(t, "QueryCurVolume"@) {
        Some(CommandView::Plain(Command::QueryCurrentVolume))
    } else if t == "VolUp"@ {
        Some(CommandView::Plain(Command::VolumeUp))
    } else if t == "VolDown"@ {
        Some(CommandView::Plain(Command::VolumeDown))
    } else if call_args(t, "SetVU("@) is Some {
        parse_vu(call_args(t, "SetVU("@)->Some_0)
    } else if call_args(t, "SetTrack("@) is Some {
        parse_track(call_args(t, "SetTrack("@)->Some_0)
    } else if call_args(t, "SetProgress("@) is Some {
        parse_progress(call_args(t, "SetProgress("@)->Some_0)
    } else if call_args(t, "SetPlaybackMode("@) is Some {
        match playback_mode_named(call_args(t, "SetPlaybackMode("@)->Some_0) {
            Some(m) => Some(CommandView::Plain(Command::UpdatePlaybackMode(m))),
            None => None,
        }
    } else {
        None
    }
}

pub open spec fn view_of(c: Option<Command>) -> Option<CommandView> {
    match c {
        Some(cmd) => Some(cmd@),
        None => None,
    }
}

fn is_space_char(c: char) -> (r: bool)
    ensures
        r == is_space(c),
{
    c == ' ' || c == '\t' || c == '\n' || c == '\x0b' || c == '\r' || c == '\x0c'
}

/// `s` without leading and trailing ASCII whitespace.
pub fn trim_text(s: &str) -> (r: &str)
    ensures
        r@ == trim(s@),
{
    let n = s.unicode_len();
    let mut lo: usize = 0;
    assert(s@.subrange(0, n as int) =~= s@);
    while lo < n && is_space_char(s.get_char(lo))
        invariant
            lo <= n,
            n == s@.len(),
            trim_start(s@) == trim_start(s@.subrange(lo as int, n as int)),
        decreases n - lo,
    {
        assert(s@.subrange(lo + 1, n as int) =~= s@.subrange(lo as int, n as int).drop_first());
        lo = lo + 1;
    }
    assert(trim_start(s@) == s@.subrange(lo as int, n as int));
    let mut hi: usize = n;
    while hi > lo && is_space_char(s.get_char(hi - 1))
        invariant
            lo <= hi <= n,
            n == s@.len(),
            trim_end(s@.subrange(lo as int, n as int)) == trim_end(
                s@.subrange(lo as int, hi as int),
            ),
        decreases hi,
    {
        assert(s@.subrange(lo as int, hi - 1) =~= s@.subrange(lo as int, hi as int).drop_last());
        hi = hi - 1;
    }
    s.substring_char(lo, hi)
}

/// Whether `s` starts with `p`.
pub fn starts_with(s: &str, p: &str) -> (r: bool)
    ensures
        r == has_prefix(s@, p@),
{
    let n = s.unicode_len();
    let m = p.unicode_len();
    if m > n {
        return false;
    }
    let mut i: usize = 0;
    while i < m
        invariant
            m <= n,
            n == s@.len(),
            m == p@.len(),
            i <= m,
            s@.subrange(0, i as int) == p@.subrange(0, i as int),
        decreases m - i,
    {
        if s.get_char(i) != p.get_char(i) {
            assert(s@.subrange(0, m as int)[i as int] != p@[i as int]);
            return false;
        }
        assert(s@.subrange(0, i + 1) =~= s@.subrange(0, i as int).push(s@[i as int]));
        assert(p@.subrange(0, i + 1) =~= p@.subrange(0, i as int).push(p@[i as int]));
        i = i + 1;
    }
    assert(p@.subrange(0, m as int) =~= p@);
    true
}

/// Whether `s` and `p` hold the same characters.
pub fn same_text(s: &str, p: &str) -> (r: bool)
    ensures
        r == (s@ == p@),
{
    let n = s.unicode_len();
    let m = p.unicode_len();
    if n != m {
        return false;
    }
    let r = starts_with(s, p);
    assert(s@ =~= s@.subrange(0, m as int));
    assert(p@ =~= p@.subrange(0, m as int));
    r
}

/// The arguments of `open...)` in `t`, if `t` has that shape.
fn call_args_of<'a>(t: &'a str, open: &str) -> (r: Option<&'a str>)
    ensures
        r matches Some(a) ==> call_args(t@, open@) == Some(a@),
        r is None ==> call_args(t@, open@) is None,
{
    let n = t.unicode_len();
    let m = open.unicode_len();
    if n <= m || !starts_with(t, open) || t.get_char(n - 1) != ')' {
        return None;
    }
    Some(t.substring_char(m, n - 1))
}


proof fn lemma_decimal_prefix_le(s: Seq<char>, k: int)
    requires
        0 <= k <= s.len(),
        all_digits(s),
    ensures
        decimal_value(s.subrange(0, k)) <= decimal_value(s),
    decreases s.len() - k,
{
    if k < s.len() {
        let init = s.drop_last();
        assert(all_digits(init)) by {
            assert forall|i: int| 0 <= i < init.len() implies is_digit(#[trigger] init[i]) by {
                assert(init[i] == s[i]);
            }
        }
        lemma_decimal_prefix_le(init, k);
        assert(init.subrange(0, k) =~= s.subrange(0, k));
        assert(is_digit(s[s.len() - 1]));
    } else {
        assert(s.subrange(0, k) =~= s);
    }
}

/// The byte that `s` writes in decimal, as `str::parse::<u8>` reads it.
pub fn parse_u8_text(s: &str) -> (r: Option<u8>)
    ensures
        r == parse_u8(s@),
{
    let n = s.unicode_len();
    let mut i: usize = 0;
    if n > 0 && s.get_char(0) == '+' {
        i = 1;
    }
    let start = i;
    let ghost d = unsigned_part(s@);
    assert(d =~= s@.subrange(start as int, n as int));
    if i >= n {
        return None;
    }
    let mut acc: u32 = 0;
    assert(s@.subrange(start as int, start as int) =~= Seq::<char>::empty());
    while i < n
        invariant
            n == s@.len(),
            start < n,
            start <= i <= n,
            d == s@.subrange(start as int, n as int),
            d == unsigned_part(s@),
            acc as nat == decimal_value(s@.subrange(start as int, i as int)),
            acc <= 255,
            all_digits(s@.subrange(start as int, i as int)),
        decreases n - i,
    {
        let c = s.get_char(i);
        if !('0' <= c && c <= '9') {
            assert(d[i - start] == c);
            assert(!is_digit(d[i - start]));
            assert(!all_digits(d));
            return None;
        }
        let ghost prev = s@.subrange(start as int, i as int);
        let ghost next = s@.subrange(start as int, i + 1);
        assert(next.drop_last() =~= prev);
        assert(next.last() == c);
        assert(all_digits(next)) by {
            assert forall|k: int| 0 <= k < next.len() implies is_digit(#[trigger] next[k]) by {
                if k < prev.len() {
                    assert(next[k] == prev[k]);
                }
            }
        }
        assert(decimal_value(next) == decimal_value(prev) * 10 + (c as nat - '0' as nat) as nat);
        acc = acc * 10 + (c as u32 - '0' as u32);
        i = i + 1;
        assert(acc as nat == decimal_value(next));
        if acc > 255 {
            proof {
                if all_digits(d) {
                    lemma_decimal_prefix_le(d, i - start);
                    assert(d.subrange(0, i - start) =~= next);
                    assert(decimal_value(d) > 255);
                }
            }
            return None;
        }
    }
    assert(s@.subrange(start as int, i as int) =~= d);
    Some(acc as u8)
}

/// The pieces of `s` between `|` separators, as new strings.
pub fn split_fields(s: &str) -> (r: Vec<String>)
    ensures
        r@.map_values(|f: String| f@) == split_bar(s@),
{
    let n = s.unicode_len();
    let mut fields: Vec<String> = Vec::new();
    let mut start: usize = 0;
    let mut i: usize = 0;
    assert(fields@.map_values(|f: String| f@) =~= Seq::<Seq<char>>::empty());
    assert(s@.subrange(0, 0) =~= Seq::<char>::empty());
    assert(fields@.map_values(|f: String| f@).push(s@.subrange(0, 0)) =~= split_bar(
        s@.subrange(0, 0),
    ));
    while i < n
        invariant
            n == s@.len(),
            start <= i <= n,
            fields@.map_values(|f: String| f@).push(s@.subrange(start as int, i as int))
                == split_bar(s@.subrange(0, i as int)),
        decreases n - i,
    {
        let ghost prev = s@.subrange(0, i as int);
        let ghost next = s@.subrange(0, i + 1);
        assert(next.drop_last() =~= prev);
        let c = s.get_char(i);
        assert(next.last() == c);
        let ghost old_fields = fields@.map_values(|f: String| f@);
        if c == '|' {
            let piece = String::from_str(s.substring_char(start, i));
            fields.push(piece);
            assert(fields@.map_values(|f: String| f@) =~= old_fields.push(piece@));
            assert(old_fields.push(piece@) == split_bar(prev));
            start = i + 1;
            assert(s@.subrange(start as int, i + 1) =~= Seq::<char>::empty());
            assert(fields@.map_values(|f: String| f@).push(s@.subrange(start as int, i + 1))
                =~= split_bar(prev).push(Seq::<char>::empty()));
        } else {
            assert(s@.subrange(start as int, i + 1) =~= s@.subrange(start as int, i as int).push(c));
            assert(fields@.map_values(|f: String| f@).push(s@.subrange(start as int, i + 1))
                =~= split_bar(prev).update(split_bar(prev).len() - 1, split_bar(prev).last().push(c)));
        }
        i = i + 1;
    }
    let last = String::from_str(s.substring_char(start, n));
    let ghost old_fields = fields@.map_values(|f: String| f@);
    fields.push(last);
    assert(fields@.map_values(|f: String| f@) =~= old_fields.push(last@));
    assert(s@.subrange(0, n as int) =~= s@);
    assert(fields@.map_values(|f: String| f@) =~= split_bar(s@));
    fields
}

fn playback_mode_text(s: &str) -> (r: Option<PlaybackMode>)
    ensures
        r == playback_mode_named(s@),
{
    if same_text(s, "Random") {
        Some(PlaybackMode::Random)
    } else if same_text(s, "Sequential") {
        Some(PlaybackMode::Sequential)
    } else if same_text(s, "LoopSingle") {
        Some(PlaybackMode::LoopSingle)
    } else if same_text(s, "LoopQueue") {
        Some(PlaybackMode::LoopQueue)
    } else {
        None
    }
}

fn vu_command(args: &str) -> (r: Option<Command>)
    ensures
        view_of(r) == parse_vu(args@),
{
    let parts = split_fields(args);
    let ghost pv = parts@.map_values(|f: String| f@);
    if parts.len() != 2 {
        return None;
    }
    assert(pv[0] == parts@[0]@ && pv[1] == parts@[1]@);
    let left = parse_u8_text(parts[0].as_str());
    let right = parse_u8_text(parts[1].as_str());
    match (left, right) {
        (Some(l), Some(r)) => Some(Command::UpdateVU { left: l, right: r }),
        _ => None,
    }
}

fn track_command(args: &str) -> (r: Option<Command>)
    ensures
        view_of(r) == parse_track(args@),
{
    let mut parts = split_fields(args);
    let ghost pv = parts@.map_values(|f: String| f@);
    if parts.len() != 3 {
        return None;
    }
    assert(pv[0] == parts@[0]@ && pv[1] == parts@[1]@ && pv[2] == parts@[2]@);
    let ghost first = parts@[0];
    let ghost second = parts@[1];
    let ghost third = parts@[2];
    let album = parts.pop();
    let artist = parts.pop();
    let title = parts.pop();
    match (title, artist, album) {
        (Some(title), Some(artist), Some(album)) => {
            assert(title == first && artist == second && album == third);
            Some(Command::UpdateTrack { title, artist, album })
        },
        _ => None,
    }
}

fn progress_command(args: &str) -> (r: Option<Command>)
    ensures
        view_of(r) == parse_progress(args@),
{
    let mut parts = split_fields(args);
    let ghost pv = parts@.map_values(|f: String| f@);
    if parts.len() != 3 {
        return None;
    }
    assert(pv[0] == parts@[0]@ && pv[1] == parts@[1]@ && pv[2] == parts@[2]@);
    let ghost first = parts@[0];
    let ghost second = parts@[1];
    let percent = match parse_u8_text(parts[2].as_str()) {
        Some(p) => p,
        None => {
            return None;
        },
    };
    if percent > 100 {
        return None;
    }
    let _ = parts.pop();
    let total = parts.pop();
    let current = parts.pop();
    match (current, total) {
        (Some(current), Some(total)) => {
            assert(current == first && total == second);
            Some(Command::UpdateProgress { current, total, percent })
        },
        _ => None,
    }
}

/// The command that a line of text from the host asks for; `None` for anything
/// unrecognised or malformed.
pub fn parse_command(line: &str) -> (r: Option<Command>)
    ensures
        view_of(r) == parse_text(line@),
{
    let t = trim_text(line);
    if let Some(a) = call_args_of(t, "SetVol(") {
        return match parse_u8_text(a) {
            Some(v) => Some(Command::SetVolume(v)),
            None => None,
        };
    }
    if starts_with(t, "QueryCurVolume") {
        return Some(Command::QueryCurrentVolume);
    }
    if same_text(t, "VolUp") {
        return Some(Command::VolumeUp);
    }
    if same_text(t, "VolDown") {
        return Some(Command::VolumeDown);
    }
    if let Some(a) = call_args_of(t, "SetVU(") {
        return vu_command(a);
    }
    if let Some(a) = call_args_of(t, "SetTrack(") {
        return track_command(a);
    }
    if let Some(a) = call_args_of(t, "SetProgress(") {
        return progress_command(a);
    }
    if let Some(a) = call_args_of(t, "SetPlaybackMode(") {
        return match playback_mode_text(a) {
            Some(m) => Some(Command::UpdatePlaybackMode(m)),
            None => None,
        };
    }
    None
}

/// The command that a received line (its bytes, without the newline) asks for. A line that
/// is not valid UTF-8 is dropped.
pub fn parse_line(line: &[u8]) -> (r: Option<Command>)
    ensures
        view_of(r) == if valid_utf8(line@) {
            parse_text(decode_utf8(line@))
        } else {
            None
        },
{
    match utf8_str(line) {
        Some(s) => {
            proof {
                encode_utf8_decode_utf8(s@);
            }
            parse_command(s)
        },
        None => None,
    }
}

pub open spec fn digit_char(d: nat) -> char {
    if d == 0 {
        '0'
    } else if d == 1 {
        '1'
    } else if d == 2 {
        '2'
    } else if d == 3 {
        '3'
    } else if d == 4 {
        '4'
    } else if d == 5 {
        '5'
    } else if d == 6 {
        '6'
    } else if d == 7 {
        '7'
    } else if d == 8 {
        '8'
    } else {
        '9'
    }
}

/// `n` in decimal, without leading zeros.
pub open spec fn decimal_text(n: nat) -> Seq<char>
    decreases n,
{
    if n < 10 {
        seq![digit_char(n)]
    } else {
        decimal_text(n / 10).push(digit_char(n % 10))
    }
}

/// The line that the firmware sends to the host for a message, newline included.
pub open spec fn message_text(m: HostMessage) -> Seq<char> {
    message_word(m) + "\n"@
}

pub open spec fn message_word(m: HostMessage) -> Seq<char> {
    match m {
        HostMessage::Next => "Next"@,
        HostMessage::Prev => "Prev"@,
        HostMessage::TogglePlay => "TogglePlay"@,
        HostMessage::Stop => "Stop"@,
        HostMessage::Play => "Play"@,
        HostMessage::PowerOff => "PowerOff"@,
        HostMessage::RandomToggle => "RandomToggle"@,
        HostMessage::CurVolume(v) => "CurVolume="@ + decimal_text(v as nat),
    }
}

/// The text of a VU update line as the host writes it.
pub open spec fn vu_text(left: u8, right: u8) -> Seq<char> {
    "SetVU("@ + decimal_text(left as nat) + "|"@ + decimal_text(right as nat) + ")"@
}

fn digit_str(d: u8) -> (r: &'static str)
    requires
        d < 10,
    ensures
        r@ == seq![digit_char(d as nat)],
{
    proof {
        reveal_strlit("0");
        reveal_strlit("1");
        reveal_strlit("2");
        reveal_strlit("3");
        reveal_strlit("4");
        reveal_strlit("5");
        reveal_strlit("6");
        reveal_strlit("7");
        reveal_strlit("8");
        reveal_strlit("9");
    }
    let r = match d {
        0 => "0",
        1 => "1",
        2 => "2",
        3 => "3",
        4 => "4",
        5 => "5",
        6 => "6",
        7 => "7",
        8 => "8",
        _ => "9",
    };
    assert(r@ =~= seq![digit_char(d as nat)]);
    r
}

/// `n` in decimal.
pub fn decimal_string(n: u8) -> (r: String)
    ensures
        r@ == decimal_text(n as nat),
{
    let mut s = String::new();
    if n >= 100 {
        s.append(digit_str(n / 100));
    }
    if n >= 10 {
        s.append(digit_str((n / 10) % 10));
    }
    s.append(digit_str(n % 10));
    proof {
        let n = n as nat;
        if n >= 100 {
            assert(decimal_text(n / 10) == decimal_text(n / 100).push(digit_char((n / 10) % 10)));
            assert(decimal_text(n / 100) == seq![digit_char(n / 100)]);
        } else if n >= 10 {
            assert(decimal_text(n / 10) == seq![digit_char(n / 10)]);
        }
    }
    assert(s@ =~= decimal_text(n as nat));
    s
}

/// The line to send to the host for a message, newline included.
pub fn encode_message(m: HostMessage) -> (r: String)
    ensures
        r@ == message_text(m),
{
    let mut s = match m {
        HostMessage::Next => String::from_str("Next"),
        HostMessage::Prev => String::from_str("Prev"),
        HostMessage::TogglePlay => String::from_str("TogglePlay"),
        HostMessage::Stop => String::from_str("Stop"),
        HostMessage::Play => String::from_str("Play"),
        HostMessage::PowerOff => String::from_str("PowerOff"),
        HostMessage::RandomToggle => String::from_str("RandomToggle"),
        HostMessage::CurVolume(v) => {
            let mut c = String::from_str("CurVolume=");
            let d = decimal_string(v);
            c.append(d.as_str());
            c
        },
    };
    s.append("\n");
    s
}

/// A VU update line as the host writes it, without its newline.
pub fn encode_vu(left: u8, right: u8) -> (r: String)
    ensures
        r@ == vu_text(left, right),
{
    let mut s = String::from_str("SetVU(");
    let l = decimal_string(left);
    s.append(l.as_str());
    s.append("|");
    let r = decimal_string(right);
    s.append(r.as_str());
    s.append(")");
    assert(s@ =~= vu_text(left, right));
    s
}

proof fn lemma_digit_char(d: nat)
    requires
        d < 10,
    ensures
        is_digit(digit_char(d)),
        digit_char(d) as nat - '0' as nat == d,
{
    assert('0' as nat == 48);
    assert('1' as nat == 49);
    assert('2' as nat == 50);
    assert('3' as nat == 51);
    assert('4' as nat == 52);
    assert('5' as nat == 53);
    assert('6' as nat == 54);
    assert('7' as nat == 55);
    assert('8' as nat == 56);
    assert('9' as nat == 57);
}

proof fn lemma_decimal_text(n: nat)
    ensures
        decimal_text(n).len() >= 1,
        all_digits(decimal_text(n)),
        decimal_value(decimal_text(n)) == n,
    decreases n,
{
    let t = decimal_text(n);
    lemma_digit_char(n % 10);
    if n < 10 {
        assert(t.drop_last() =~= Seq::<char>::empty());
        assert(n % 10 == n);
        assert(t.last() == digit_char(n));
        assert(decimal_value(t.drop_last()) == 0);
        assert(decimal_value(t) == n);
    } else {
        lemma_decimal_text(n / 10);
        let d = decimal_text(n / 10);
        assert(t.drop_last() =~= d);
        assert(t.last() == digit_char(n % 10));
        assert(decimal_value(t) == decimal_value(d) * 10 + (n % 10));
        assert((n / 10) * 10 + n % 10 == n);
        assert forall|i: int| 0 <= i < t.len() implies is_digit(#[trigger] t[i]) by {
            if i < d.len() {
                assert(t[i] == d[i]);
            }
        }
    }
}

proof fn lemma_parse_decimal(n: u8)
    ensures
        parse_u8(decimal_text(n as nat)) == Some(n),
{
    lemma_decimal_text(n as nat);
    let t = decimal_text(n as nat);
    assert(is_digit(t[0]));
    assert(unsigned_part(t) == t);
}

proof fn lemma_split_without_bar(s: Seq<char>)
    requires
        forall|i: int| 0 <= i < s.len() ==> #[trigger] s[i] != '|',
    ensures
        split_bar(s) == seq![s],
    decreases s.len(),
{
    if s.len() == 0 {
        assert(s =~= Seq::<char>::empty());
    } else {
        let init = s.drop_last();
        lemma_split_without_bar(init);
        assert(s.last() != '|');
        assert(init.push(s.last()) =~= s);
        assert(seq![init].update(0, init.push(s.last())) =~= seq![s]);
    }
}

proof fn lemma_split_join(x: Seq<char>, y: Seq<char>)
    requires
        forall|i: int| 0 <= i < y.len() ==> #[trigger] y[i] != '|',
    ensures
        split_bar(x.push('|') + y) == split_bar(x).push(y),
    decreases y.len(),
{
    let s = x.push('|') + y;
    if y.len() == 0 {
        assert(s =~= x.push('|'));
        assert(s.drop_last() =~= x);
        assert(y =~= Seq::<char>::empty());
    } else {
        let yi = y.drop_last();
        lemma_split_join(x, yi);
        assert(s.drop_last() =~= x.push('|') + yi);
        assert(s.last() == y.last());
        assert(yi.push(y.last()) =~= y);
        assert(split_bar(x).push(yi).update(split_bar(x).len() as int, yi.push(y.last()))
            =~= split_bar(x).push(y));
    }
}

/// A VU update written by `encode_vu` reads back as the same two levels.
pub proof fn lemma_vu_round_trip(left: u8, right: u8)
    ensures
        parse_text(vu_text(left, right)) == Some(
            CommandView::Plain(Command::UpdateVU { left, right }),
        ),
{
    reveal_strlit("SetVU(");
    reveal_strlit("|");
    reveal_strlit(")");
    reveal_strlit("SetVol(");
    reveal_strlit("QueryCurVolume");
    reveal_strlit("VolUp");
    reveal_strlit("VolDown");
    let dl = decimal_text(left as nat);
    let dr = decimal_text(right as nat);
    lemma_decimal_text(left as nat);
    lemma_decimal_text(right as nat);
    let t = vu_text(left, right);
    assert(t =~= seq!['S', 'e', 't', 'V', 'U', '('] + dl + seq!['|'] + dr + seq![')']);
    assert(t[0] == 'S');
    assert(t.last() == ')');
    assert(trim_start(t) == t);
    assert(trim_end(t) == t);
    assert(trim(t) == t);
    assert(t.len() >= 10);
    assert(t.subrange(0, 7)[4] != "SetVol("@[4]);
    assert(call_args(t, "SetVol("@) is None);
    if t.len() >= 14 {
        assert(t.subrange(0, 14)[0] != "QueryCurVolume"@[0]);
    }
    assert(!has_prefix(t, "QueryCurVolume"@));
    assert(t[1] != "VolUp"@[1]);
    assert(t[1] != "VolDown"@[1]);
    let a = t.subrange(6, t.len() - 1);
    assert(a =~= dl.push('|') + dr);
    assert(t.subrange(0, 6) =~= "SetVU("@);
    assert(call_args(t, "SetVU("@) == Some(a));
    assert forall|i: int| 0 <= i < dl.len() implies #[trigger] dl[i] != '|' by {
        assert(is_digit(dl[i]));
    }
    assert forall|i: int| 0 <= i < dr.len() implies #[trigger] dr[i] != '|' by {
        assert(is_digit(dr[i]));
    }
    lemma_split_join(dl, dr);
    lemma_split_without_bar(dl);
    assert(split_bar(a) =~= seq![dl, dr]);
    lemma_parse_decimal(left);
    lemma_parse_decimal(right);
}

} // verus!
