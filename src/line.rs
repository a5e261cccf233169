use vstd::prelude::*;

use crate::command::Command;
use crate::protocol::{parse_line, parse_text, view_of};
use vstd::utf8::{decode_utf8, valid_utf8};

verus! {

#[verifier::external_type_specification]
#[verifier::external_body]
#[verifier::reject_recursive_types(T)]
pub struct ExHeaplessVec<T, const N: usize>(heapless::Vec<T, N>);

/// Longest line kept; bytes beyond it are dropped until the next newline.
pub const LINE_CAPACITY: usize = 128;

/// The bytes held by a line buffer, in order.
pub uninterp spec fn held_bytes(v: heapless::Vec<u8, 128>) -> Seq<u8>;

/// Relies on heapless's `Vec::new`: an empty vector.
#[verifier::external_body]
fn line_buffer_new() -> (r: heapless::Vec<u8, 128>)
    ensures
        held_bytes(r) == Seq::<u8>::empty(),
{
    heapless::Vec::new()
}

/// Relies on heapless's `Vec::push`: below capacity the byte is appended and `Ok` comes
/// back; at capacity the vector is left as it was and the byte comes back in `Err`.
#[verifier::external_body]
fn line_buffer_push(v: &mut heapless::Vec<u8, 128>, b: u8) -> (r: bool)
    ensures
        held_bytes(*final(v)).len() <= LINE_CAPACITY,
        r <==> held_bytes(*old(v)).len() < LINE_CAPACITY,
        r ==> held_bytes(*final(v)) == held_bytes(*old(v)).push(b),
        !r ==> held_bytes(*final(v)) == held_bytes(*old(v)),
{
    v.push(b).is_ok()
}

/// Relies on heapless's `Vec::clear`: the vector is emptied.
#[verifier::external_body]
fn line_buffer_clear(v: &mut heapless::Vec<u8, 128>)
    ensures
        held_bytes(*final(v)) == Seq::<u8>::empty(),
{
    v.clear()
}

/// Relies on heapless's `Vec::as_slice`: the held bytes, in order.
#[verifier::external_body]
fn line_buffer_bytes(v: &heapless::Vec<u8, 128>) -> (r: &[u8])
    ensures
        r@ == held_bytes(*v),
{
    v.as_slice()
}

/// What a complete received line (without its newline) asks for.
pub open spec fn parse_bytes(b: Seq<u8>) -> Option<crate::command::CommandView> {
    if valid_utf8(b) {
        parse_text(decode_utf8(b))
    } else {
        None
    }
}

/// Collects the bytes arriving from the host into newline-terminated lines.
pub struct LineAssembler {
    pub buf: heapless::Vec<u8, 128>,
}

impl LineAssembler {
    pub open spec fn pending(self) -> Seq<u8> {
        held_bytes(self.buf)
    }

    pub fn new() -> (r: LineAssembler)
        ensures
            r.pending() == Seq::<u8>::empty(),
    {
        LineAssembler { buf: line_buffer_new() }
    }

    /// Takes one received byte. A newline ends the line: the line is parsed, and the buffer
    /// starts again empty. Any other byte is kept while the line is shorter than
    /// `LINE_CAPACITY` and dropped after that.
    pub fn push_byte(&mut self, byte: u8) -> (r: Option<Command>)
        ensures
            byte == 10 ==> view_of(r) == parse_bytes(old(self).pending()) && final(self).pending()
                == Seq::<u8>::empty(),
            byte != 10 ==> r is None && final(self).pending() == if old(self).pending().len()
                < LINE_CAPACITY {
                old(self).pending().push(byte)
            } else {
                old(self).pending()
            },
    {
        if byte == 10 {
            let r = parse_line(line_buffer_bytes(&self.buf));
            line_buffer_clear(&mut self.buf);
            r
        } else {
            let _ = line_buffer_push(&mut self.buf, byte);
            None
        }
    }
}

} // verus!
