use vstd::prelude::*;

use crate::command::Command;
use infrared::protocol::Nec;
use infrared::Receiver;

verus! {

/// A frame decoded from the remote: button code, remote address and whether it is an
/// auto-repeat frame of a held button.
#[derive(Clone, Copy, Debug, PartialEq, Eq, Structural)]
pub struct IrFrame {
    pub command: u8,
    pub address: u8,
    pub repeat: bool,
}

/// Address of the remote that this device answers to.
pub const REMOTE_ADDRESS: u8 = 128;

/// Repeat frames of the power button that must be seen before power is toggled; the
/// toggle fires on the next one.
pub const POWER_REPEAT_LIMIT: u8 = 10;

pub const BUTTON_VOLUME_UP: u8 = 38;
pub const BUTTON_VOLUME_DOWN: u8 = 40;
pub const BUTTON_NEXT: u8 = 39;
pub const BUTTON_PREV: u8 = 37;
pub const BUTTON_PLAY: u8 = 13;
pub const BUTTON_MENU: u8 = 73;
pub const BUTTON_MOUSE: u8 = 82;
pub const BUTTON_RETURN: u8 = 27;
pub const BUTTON_HOME: u8 = 83;
pub const BUTTON_POWER: u8 = 81;
pub const BUTTON_ONE: u8 = 49;
pub const BUTTON_TWO: u8 = 50;
pub const BUTTON_THREE: u8 = 51;
pub const BUTTON_VOL_PLUS: u8 = 78;

/// The command of a button that fires once per press, on its first frame.
pub open spec fn press_command(code: u8) -> Option<Command> {
    if code == BUTTON_NEXT {
        Some(Command::Next)
    } else if code == BUTTON_PREV {
        Some(Command::Prev)
    } else if code == BUTTON_PLAY {
        Some(Command::TogglePlay)
    } else if code == BUTTON_MENU {
        Some(Command::ToggleInput)
    } else if code == BUTTON_MOUSE {
        Some(Command::NextDacFilterType)
    } else if code == BUTTON_RETURN {
        Some(Command::NextDacSoundSetting)
    } else if code == BUTTON_HOME {
        Some(Command::ToggleDacDsdPcmMode)
    } else if code == BUTTON_ONE {
        Some(Command::ToggleDacDsdDclkPolarity)
    } else if code == BUTTON_TWO {
        Some(Command::ToggleDacDsdCutoffFreqFilter)
    } else if code == BUTTON_THREE {
        Some(Command::ToggleDacDsdDclksClock)
    } else if code == BUTTON_VOL_PLUS {
        Some(Command::ToggleRandomPlay)
    } else {
        None
    }
}

/// What a frame does to the power-button repeat count, and the command it fires.
pub open spec fn ir_step(count: u8, f: IrFrame) -> (u8, Option<Command>) {
    if f.address != REMOTE_ADDRESS {
        (count, None)
    } else if f.command == BUTTON_VOLUME_UP {
        (count, Some(Command::VolumeUp))
    } else if f.command == BUTTON_VOLUME_DOWN {
        (count, Some(Command::VolumeDown))
    } else if f.command == BUTTON_POWER {
        if !f.repeat {
            (0, None)
        } else if count >= POWER_REPEAT_LIMIT {
            (0, Some(Command::TogglePower))
        } else {
            ((count + 1) as u8, None)
        }
    } else if f.repeat {
        (count, None)
    } else {
        (count, press_command(f.command))
    }
}

/// Button policy of the infrared remote.
#[derive(Clone, Copy, Debug, PartialEq, Eq, Structural)]
pub struct IrRemote {
    /// Consecutive repeat frames of the power button seen so far.
    pub repeat_cnt: u8,
}

impl IrRemote {
    pub open spec fn wf(self) -> bool {
        self.repeat_cnt <= POWER_REPEAT_LIMIT
    }

    pub fn new() -> (r: IrRemote)
        ensures
            r.repeat_cnt == 0,
            r.wf(),
    {
        IrRemote { repeat_cnt: 0 }
    }

    /// The command that a decoded frame fires, if any. Frames from another remote are
    /// ignored; volume buttons fire on every frame; the power button fires after a run
    /// of repeat frames and any fresh press of it restarts the count; every other button
    /// fires on its first frame only.
    pub fn on_frame(&mut self, frame: IrFrame) -> (r: Option<Command>)
        requires
            old(self).wf(),
        ensures
            final(self).wf(),
            (final(self).repeat_cnt, r) == ir_step(old(self).repeat_cnt, frame),
    {
        if frame.address != REMOTE_ADDRESS {
            return None;
        }
        match frame.command {
            BUTTON_VOLUME_UP => Some(Command::VolumeUp),
            BUTTON_VOLUME_DOWN => Some(Command::VolumeDown),
            BUTTON_POWER => {
                if !frame.repeat {
                    self.repeat_cnt = 0;
                    None
                } else if self.repeat_cnt >= POWER_REPEAT_LIMIT {
                    self.repeat_cnt = 0;
                    Some(Command::TogglePower)
                } else {
                    self.repeat_cnt = self.repeat_cnt + 1;
                    None
                }
            },
            _ => {
                if frame.repeat {
                    return None;
                }
                match frame.command {
                    BUTTON_NEXT => Some(Command::Next),
                    BUTTON_PREV => Some(Command::Prev),
                    BUTTON_PLAY => Some(Command::TogglePlay),
                    BUTTON_MENU => Some(Command::ToggleInput),
                    BUTTON_MOUSE => Some(Command::NextDacFilterType),
                    BUTTON_RETURN => Some(Command::NextDacSoundSetting),
                    BUTTON_HOME => Some(Command::ToggleDacDsdPcmMode),
                    BUTTON_ONE => Some(Command::ToggleDacDsdDclkPolarity),
                    BUTTON_TWO => Some(Command::ToggleDacDsdCutoffFreqFilter),
                    BUTTON_THREE => Some(Command::ToggleDacDsdDclksClock),
                    BUTTON_VOL_PLUS => Some(Command::ToggleRandomPlay),
                    _ => None,
                }
            },
        }
    }
}

/// What the policy makes of a decoder result: a frame goes through `ir_step`, no frame
/// changes nothing.
pub open spec fn ir_outcome(count: u8, f: Option<IrFrame>) -> (u8, Option<Command>) {
    match f {
        Some(frame) => ir_step(count, frame),
        None => (count, None),
    }
}

/// Count and commands after a run of frames, starting from `count`.
pub open spec fn ir_run(count: u8, frames: Seq<IrFrame>) -> (u8, Seq<Command>)
    decreases frames.len(),
{
    if frames.len() == 0 {
        (count, seq![])
    } else {
        let (c, o) = ir_step(count, frames[0]);
        let (c2, cmds) = ir_run(c, frames.drop_first());
        (c2, match o {
            Some(cmd) => seq![cmd] + cmds,
            None => cmds,
        })
    }
}

pub open spec fn power_frame(repeat: bool) -> IrFrame {
    IrFrame { command: BUTTON_POWER, address: REMOTE_ADDRESS, repeat }
}

proof fn lemma_power_repeats(count: u8, n: nat)
    requires
        count as nat + n <= POWER_REPEAT_LIMIT as nat,
    ensures
        ir_run(count, Seq::new(n, |i: int| power_frame(true))) == ((count as nat + n) as u8, Seq::<
            Command,
        >::empty()),
    decreases n,
{
    let frames = Seq::new(n, |i: int| power_frame(true));
    if n > 0 {
        assert(frames.drop_first() =~= Seq::new((n - 1) as nat, |i: int| power_frame(true)));
        lemma_power_repeats((count + 1) as u8, (n - 1) as nat);
    }
    assert(seq![] =~= Seq::<Command>::empty());
}

/// A held power button: up to ten repeat frames followed by a fresh frame never toggle
/// power, and the count is back at zero; eleven repeat frames toggle it exactly once, and
/// the count is back at zero after that.
pub proof fn lemma_power_repeat_gating(n: nat)
    requires
        n <= POWER_REPEAT_LIMIT as nat,
    ensures
        ir_run(0, Seq::new(n, |i: int| power_frame(true)).push(power_frame(false))) == (
            0u8,
            Seq::<Command>::empty(),
        ),
        ir_run(0, Seq::new((POWER_REPEAT_LIMIT + 1) as nat, |i: int| power_frame(true))) == (
            0u8,
            seq![Command::TogglePower],
        ),
{
    lemma_ir_run_push(0, Seq::new(n, |i: int| power_frame(true)), power_frame(false));
    lemma_power_repeats(0, n);
    let eleven = Seq::new((POWER_REPEAT_LIMIT + 1) as nat, |i: int| power_frame(true));
    let ten = Seq::new(POWER_REPEAT_LIMIT as nat, |i: int| power_frame(true));
    assert(eleven =~= ten.push(power_frame(true)));
    lemma_ir_run_push(0, ten, power_frame(true));
    lemma_power_repeats(0, POWER_REPEAT_LIMIT as nat);
    assert(Seq::<Command>::empty() + seq![Command::TogglePower] =~= seq![Command::TogglePower]);
    assert(Seq::<Command>::empty() + Seq::<Command>::empty() =~= Seq::<Command>::empty());
}

proof fn lemma_ir_run_push(count: u8, frames: Seq<IrFrame>, f: IrFrame)
    ensures
        ({
            let (c, cmds) = ir_run(count, frames);
            let (c2, o) = ir_step(c, f);
            ir_run(count, frames.push(f)) == (c2, cmds + match o {
                Some(cmd) => seq![cmd],
                None => Seq::<Command>::empty(),
            })
        }),
    decreases frames.len(),
{
    if frames.len() == 0 {
        reveal_with_fuel(ir_run, 2);
        assert(frames.push(f).drop_first() =~= Seq::<IrFrame>::empty());
        assert(seq![] + seq![] =~= Seq::<Command>::empty());
        let (c2, o) = ir_step(count, f);
        match o {
            Some(cmd) => {
                assert(seq![cmd] + Seq::<Command>::empty() =~= Seq::<Command>::empty() + seq![cmd]);
            },
            None => {},
        }
    } else {
        let (c1, o1) = ir_step(count, frames[0]);
        assert(frames.push(f)[0] == frames[0]);
        assert(frames.push(f).drop_first() =~= frames.drop_first().push(f));
        lemma_ir_run_push(c1, frames.drop_first(), f);
        let (c, cmds) = ir_run(c1, frames.drop_first());
        let (c2, o) = ir_step(c, f);
        let tail = match o {
            Some(cmd) => seq![cmd],
            None => Seq::<Command>::empty(),
        };
        match o1 {
            Some(cmd1) => {
                assert(seq![cmd1] + (cmds + tail) =~= (seq![cmd1] + cmds) + tail);
            },
            None => {},
        }
    }
}

/// The NEC pulse decoder of the `infrared` crate, kept whole: Verus does not take that
/// type's declaration, whose parameters carry the crate's own traits as bounds.
#[verifier::external_body]
pub struct NecDecoder {
    receiver: Receiver<Nec>,
}

/// Timer resolution of the edge timestamps handed to the decoder: one tick per microsecond.
pub const IR_RESOLUTION_HZ: u32 = 1_000_000;

/// Longest gap between two edges that the decoder is handed, in microseconds.
pub const MAX_EDGE_GAP_US: u32 = 0x7fff_ffff;

/// The edges fed to a decoder since it was made, each as its gap from the previous edge
/// and its polarity flag, in order.
pub uninterp spec fn fed_edges(d: NecDecoder) -> Seq<(u32, bool)>;

/// The timer resolution that a decoder was made for, in Hz.
pub uninterp spec fn decoder_resolution(d: NecDecoder) -> u32;

/// The frame, if any, that an NEC decoder made for `resolution_hz` hands out on the last of
/// `edges`, having been fed exactly these edges from its idle state.
pub uninterp spec fn nec_decoded(resolution_hz: u32, edges: Seq<(u32, bool)>) -> Option<IrFrame>;

impl NecDecoder {
    /// Relies on infrared's `Receiver::new`: an NEC decoder in its idle state, for timestamps
    /// of the given resolution (between 1 kHz and 1 MHz its pulse tables are computed
    /// without overflow).
    #[verifier::external_body]
    fn with_resolution(resolution_hz: u32) -> (r: NecDecoder)
        requires
            1000 <= resolution_hz <= 1_000_000,
        ensures
            fed_edges(r) == Seq::<(u32, bool)>::empty(),
            decoder_resolution(r) == resolution_hz,
    {
        NecDecoder { receiver: Receiver::new(resolution_hz) }
    }

    /// Relies on infrared's `Receiver::event`: feeds one edge and its distance from the
    /// previous one; a frame comes out when that edge completes one. A decoding error resets
    /// the decoder and gives no frame. The decoder adds the gap to the one saved at the
    /// previous edge, which stays clear of overflow for gaps below 2^31. The decoder is a
    /// deterministic state machine, so what comes out depends on its resolution and on the
    /// edges it has been fed alone.
    #[verifier::external_body]
    fn event(&mut self, dt_us: u32, edge: bool) -> (r: Option<IrFrame>)
        requires
            dt_us <= MAX_EDGE_GAP_US,
        ensures
            fed_edges(*final(self)) == fed_edges(*old(self)).push((dt_us, edge)),
            decoder_resolution(*final(self)) == decoder_resolution(*old(self)),
            r == nec_decoded(decoder_resolution(*final(self)), fed_edges(*final(self))),
    {
        match self.receiver.event(dt_us, edge) {
            Ok(Some(c)) => Some(IrFrame { command: c.cmd, address: c.addr, repeat: c.repeat }),
            _ => None,
        }
    }
}

/// The NEC decoder together with the button policy of the remote.
pub struct IrReceiver {
    pub decoder: NecDecoder,
    pub remote: IrRemote,
}

impl IrReceiver {
    pub open spec fn wf(self) -> bool {
        self.remote.wf()
    }

    pub fn new() -> (r: IrReceiver)
        ensures
            r.wf(),
            r.remote.repeat_cnt == 0,
            fed_edges(r.decoder) == Seq::<(u32, bool)>::empty(),
            decoder_resolution(r.decoder) == IR_RESOLUTION_HZ,
    {
        IrReceiver { decoder: NecDecoder::with_resolution(IR_RESOLUTION_HZ), remote: IrRemote::new() }
    }

    /// Feeds one edge of the receiver line, `dt_us` microseconds after the previous one
    /// (longer gaps are clamped, which the decoder treats alike). Whatever frame the
    /// decoder completes goes through the remote's button policy.
    pub fn on_edge(&mut self, dt_us: u32, edge: bool) -> (r: Option<Command>)
        requires
            old(self).wf(),
        ensures
            final(self).wf(),
            fed_edges(final(self).decoder) == fed_edges(old(self).decoder).push(
                (
                    if dt_us > MAX_EDGE_GAP_US {
                        MAX_EDGE_GAP_US
                    } else {
                        dt_us
                    },
                    edge,
                ),
            ),
            decoder_resolution(final(self).decoder) == decoder_resolution(old(self).decoder),
            (final(self).remote.repeat_cnt, r) == ir_outcome(
                old(self).remote.repeat_cnt,
                nec_decoded(decoder_resolution(old(self).decoder), fed_edges(final(self).decoder)),
            ),
    {
        let dt = if dt_us > MAX_EDGE_GAP_US {
            MAX_EDGE_GAP_US
        } else {
            dt_us
        };
        let decoded = self.decoder.event(dt, edge);
        let r = match decoded {
            Some(frame) => self.remote.on_frame(frame),
            None => None,
        };
        assert((self.remote.repeat_cnt, r) == ir_outcome(old(self).remote.repeat_cnt, decoded));
        r
    }
}

} // verus!
