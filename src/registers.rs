use vstd::prelude::*;

verus! {

/// One step of a register program for the DAC chip.
#[derive(Clone, Copy, Debug, PartialEq, Eq, Structural)]
pub enum RegOp {
    /// Drive the chip's power-down pin: `true` lets the chip run, `false` holds it in reset.
    PowerPin(bool),
    /// Write a whole register.
    Write { reg: u8, value: u8 },
    /// Read a register, set or clear one bit, write it back and let the chip settle.
    ChangeBit { reg: u8, bit: u8, set: bool },
    /// Read a register, flip one bit and write it back.
    ToggleBit { reg: u8, bit: u8 },
    /// Wait this many milliseconds.
    Delay { ms: u32 },
}

/// Settle time after a bit change, in milliseconds.
pub const SETTLE_MS: u32 = 30;

/// Time the reset bit is held low, in milliseconds.
pub const RESET_HOLD_MS: u32 = 50;

/// `x` with bit `bit` set to `value`.
pub open spec fn with_bit(x: u8, bit: u8, value: bool) -> u8 {
    if value {
        x | (1u8 << bit)
    } else {
        x & !(1u8 << bit)
    }
}

/// Bit `i` of `x`.
pub open spec fn bit_of(x: u8, i: u8) -> bool {
    (x >> i) & 1u8 == 1u8
}

impl RegOp {
    /// Bit positions name a bit of a byte.
    pub open spec fn wf(self) -> bool {
        match self {
            RegOp::ChangeBit { bit, .. } => bit < 8,
            RegOp::ToggleBit { bit, .. } => bit < 8,
            _ => true,
        }
    }

    pub open spec fn is_toggle(self) -> bool {
        self is ToggleBit
    }

    /// The byte that this op writes when the register holds `current`, if it writes one;
    /// nothing is ever written to an unpowered chip.
    pub open spec fn written_value(self, powered: bool, current: u8) -> Option<u8> {
        if !powered {
            None
        } else {
            match self {
                RegOp::Write { value, .. } => Some(value),
                RegOp::ChangeBit { bit, set, .. } => Some(with_bit(current, bit, set)),
                RegOp::ToggleBit { bit, .. } => Some(current ^ (1u8 << bit)),
                _ => None,
            }
        }
    }

    /// Whether this op reads its register before writing it.
    pub fn reads_register(&self) -> (r: bool)
        ensures
            r == (self is ChangeBit || self is ToggleBit),
    {
        match self {
            RegOp::ChangeBit { .. } | RegOp::ToggleBit { .. } => true,
            _ => false,
        }
    }

    /// The byte to write for this op, given what its register holds now. The power guard
    /// of the register protocol lives here: an unpowered chip is never written.
    pub fn value_to_write(&self, powered: bool, current: u8) -> (r: Option<u8>)
        requires
            self.wf(),
        ensures
            r == self.written_value(powered, current),
    {
        if !powered {
            return None;
        }
        match *self {
            RegOp::Write { value, .. } => Some(value),
            RegOp::ChangeBit { bit, set, .. } => Some(set_bit_value(current, bit, set)),
            RegOp::ToggleBit { bit, .. } => Some(current ^ (1u8 << bit)),
            _ => None,
        }
    }
}

/// `x` with bit `bit` set to `value`.
pub fn set_bit_value(x: u8, bit: u8, value: bool) -> (r: u8)
    requires
        bit < 8,
    ensures
        r == with_bit(x, bit, value),
{
    if value {
        x | (1u8 << bit)
    } else {
        x & !(1u8 << bit)
    }
}

/// The register file after one op. Registers beyond the file's length are not modelled.
pub open spec fn apply_op(regs: Seq<u8>, powered: bool, op: RegOp) -> Seq<u8> {
    match op {
        RegOp::Write { reg, .. } | RegOp::ChangeBit { reg, .. } | RegOp::ToggleBit { reg, .. } => {
            if powered && reg < regs.len() {
                regs.update(reg as int, op.written_value(powered, regs[reg as int])->Some_0)
            } else {
                regs
            }
        },
        _ => regs,
    }
}

/// The register file after a whole program.
pub open spec fn run(regs: Seq<u8>, powered: bool, ops: Seq<RegOp>) -> Seq<u8>
    decreases ops.len(),
{
    if ops.len() == 0 {
        regs
    } else {
        run(apply_op(regs, powered, ops[0]), powered, ops.drop_first())
    }
}

/// A program of well-formed ops that flips no bit.
pub open spec fn is_assigning(ops: Seq<RegOp>) -> bool {
    forall|k: int| 0 <= k < ops.len() ==> (#[trigger] ops[k]).wf() && !ops[k].is_toggle()
}

/// Whether `op` decides bit `i` of register `reg`.
pub open spec fn decides(op: RegOp, reg: int, i: u8) -> bool {
    match op {
        RegOp::Write { reg: r, .. } => r == reg,
        RegOp::ChangeBit { reg: r, bit, .. } => r == reg && bit == i,
        _ => false,
    }
}

/// The value that `op` gives to bit `i` of the register it decides.
pub open spec fn decided_value(op: RegOp, i: u8) -> bool {
    match op {
        RegOp::Write { value, .. } => bit_of(value, i),
        RegOp::ChangeBit { set, .. } => set,
        _ => false,
    }
}

/// The value that the last op of `ops` deciding bit `i` of register `reg` gives it.
pub open spec fn last_decided(ops: Seq<RegOp>, reg: int, i: u8) -> Option<bool>
    decreases ops.len(),
{
    if ops.len() == 0 {
        None
    } else {
        match last_decided(ops.drop_first(), reg, i) {
            Some(v) => Some(v),
            None => if decides(ops[0], reg, i) {
                Some(decided_value(ops[0], i))
            } else {
                None
            },
        }
    }
}

proof fn lemma_bit_of_with_bit(x: u8, b: u8, v: bool, i: u8)
    requires
        b < 8,
        i < 8,
    ensures
        bit_of(with_bit(x, b, v), i) == if b == i {
            v
        } else {
            bit_of(x, i)
        },
{
    if v {
        assert(bit_of(x | (1u8 << b), i) == if b == i {
            true
        } else {
            bit_of(x, i)
        }) by (bit_vector)
            requires
                b < 8,
                i < 8,
        ;
    } else {
        assert(bit_of(x & !(1u8 << b), i) == if b == i {
            false
        } else {
            bit_of(x, i)
        }) by (bit_vector)
            requires
                b < 8,
                i < 8,
        ;
    }
}

proof fn lemma_bits_determine_byte(x: u8, y: u8)
    requires
        forall|i: u8| i < 8 ==> #[trigger] bit_of(x, i) == bit_of(y, i),
    ensures
        x == y,
{
    assert(bit_of(x, 0) == bit_of(y, 0));
    assert(bit_of(x, 1) == bit_of(y, 1));
    assert(bit_of(x, 2) == bit_of(y, 2));
    assert(bit_of(x, 3) == bit_of(y, 3));
    assert(bit_of(x, 4) == bit_of(y, 4));
    assert(bit_of(x, 5) == bit_of(y, 5));
    assert(bit_of(x, 6) == bit_of(y, 6));
    assert(bit_of(x, 7) == bit_of(y, 7));
    assert(x == y) by (bit_vector)
        requires
            bit_of(x, 0) == bit_of(y, 0),
            bit_of(x, 1) == bit_of(y, 1),
            bit_of(x, 2) == bit_of(y, 2),
            bit_of(x, 3) == bit_of(y, 3),
            bit_of(x, 4) == bit_of(y, 4),
            bit_of(x, 5) == bit_of(y, 5),
            bit_of(x, 6) == bit_of(y, 6),
            bit_of(x, 7) == bit_of(y, 7),
    ;
}

proof fn lemma_run_len(regs: Seq<u8>, powered: bool, ops: Seq<RegOp>)
    ensures
        run(regs, powered, ops).len() == regs.len(),
    decreases ops.len(),
{
    if ops.len() > 0 {
        lemma_run_len(apply_op(regs, powered, ops[0]), powered, ops.drop_first());
    }
}

/// On a powered chip, each bit of each register ends as the last op of the program that
/// decides it set it, and a bit that no op decides keeps its old value: a program's effect
/// is a function of the program alone on the bits it touches, and nothing else drifts.
pub proof fn lemma_run_bit(regs: Seq<u8>, ops: Seq<RegOp>, reg: int, i: u8)
    requires
        is_assigning(ops),
        0 <= reg < regs.len(),
        i < 8,
    ensures
        bit_of(run(regs, true, ops)[reg], i) == match last_decided(ops, reg, i) {
            Some(v) => v,
            None => bit_of(regs[reg], i),
        },
    decreases ops.len(),
{
    lemma_run_len(regs, true, ops);
    if ops.len() > 0 {
        let op = ops[0];
        let next = apply_op(regs, true, op);
        let rest = ops.drop_first();
        assert(op.wf() && !op.is_toggle());
        assert forall|k: int| 0 <= k < rest.len() implies (#[trigger] rest[k]).wf()
            && !rest[k].is_toggle() by {
            assert(rest[k] == ops[k + 1]);
        }
        lemma_run_bit(next, rest, reg, i);
        match op {
            RegOp::ChangeBit { reg: r, bit, set } => {
                if r == reg {
                    lemma_bit_of_with_bit(regs[reg], bit, set, i);
                }
            },
            _ => {},
        }
    }
}

/// An unpowered chip keeps its registers whatever program is sent to it.
pub proof fn lemma_unpowered_run(regs: Seq<u8>, ops: Seq<RegOp>)
    ensures
        run(regs, false, ops) == regs,
    decreases ops.len(),
{
    if ops.len() > 0 {
        lemma_unpowered_run(regs, ops.drop_first());
    }
}

/// A register program that only writes registers and sets or clears bits can be replayed:
/// running it twice leaves the registers as running it once does.
pub proof fn lemma_assigning_program_idempotent(regs: Seq<u8>, ops: Seq<RegOp>)
    requires
        is_assigning(ops),
    ensures
        run(run(regs, true, ops), true, ops) == run(regs, true, ops),
{
    let once = run(regs, true, ops);
    let twice = run(once, true, ops);
    lemma_run_len(regs, true, ops);
    lemma_run_len(once, true, ops);
    assert forall|reg: int| 0 <= reg < once.len() implies twice[reg] == once[reg] by {
        assert forall|i: u8| i < 8 implies #[trigger] bit_of(twice[reg], i) == bit_of(
            once[reg],
            i,
        ) by {
            lemma_run_bit(once, ops, reg, i);
            lemma_run_bit(regs, ops, reg, i);
        }
        lemma_bits_determine_byte(twice[reg], once[reg]);
    }
    assert(twice =~= once);
}

} // verus!
