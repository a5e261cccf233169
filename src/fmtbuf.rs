use vstd::prelude::*;

use crate::protocol::utf8_str;
use vstd::string::StringSliceAdditionalSpecFns;
use vstd::utf8::valid_utf8;

verus! {

/// Capacity of a format buffer, in bytes.
pub const FMT_CAPACITY: usize = 16;

/// A small fixed-capacity text buffer for formatting short messages; bytes written past
/// its capacity are dropped.
pub struct FmtBuf {
    pub buf: Vec<u8>,
}

impl FmtBuf {
    pub open spec fn wf(self) -> bool {
        self.buf@.len() <= FMT_CAPACITY
    }

    pub fn new() -> (r: FmtBuf)
        ensures
            r.wf(),
            r.buf@ == Seq::<u8>::empty(),
    {
        FmtBuf { buf: Vec::new() }
    }

    /// Appends the bytes of `s`, as many as fit.
    pub fn write_str(&mut self, s: &str)
        requires
            old(self).wf(),
        ensures
            final(self).wf(),
            final(self).buf@ == old(self).buf@ + s.spec_bytes().subrange(
                0,
                vstd::math::min(
                    (FMT_CAPACITY - old(self).buf@.len()) as int,
                    s.spec_bytes().len() as int,
                ),
            ),
    {
        let bytes = s.as_bytes();
        let room = FMT_CAPACITY - self.buf.len();
        let k: usize = if room < bytes.len() {
            room
        } else {
            bytes.len()
        };
        let ghost start = self.buf@;
        let mut i: usize = 0;
        while i < k
            invariant
                i <= k <= bytes@.len(),
                k <= room,
                room == FMT_CAPACITY - start.len(),
                bytes@ == s.spec_bytes(),
                self.buf@ == start + bytes@.subrange(0, i as int),
            decreases k - i,
        {
            self.buf.push(bytes[i]);
            i = i + 1;
            assert(self.buf@ =~= start + bytes@.subrange(0, i as int));
        }
    }

    /// The text written so far; it must not end inside a character that was cut short.
    pub fn as_str(&self) -> (r: &str)
        requires
            valid_utf8(self.buf@),
        ensures
            r.spec_bytes() == self.buf@,
    {
        match utf8_str(self.buf.as_slice()) {
            Some(s) => s,
            None => "",
        }
    }
}

} // verus!
