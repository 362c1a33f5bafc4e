//! Decoding of guest instructions, as far as the hypervisor needs it: the
//! length of an instruction, to step over it, and its text, for the dump that
//! precedes a halt.

use iced_x86::{Decoder, DecoderOptions, Formatter, GasFormatter};
use vstd::prelude::*;
use vstd::slice::slice_subrange;

verus! {

/// Number of bytes read at the guest's instruction pointer to decode one
/// instruction.
pub const DECODE_WINDOW: usize = 10;

/// The length that the decoder of `iced_x86` gives, in 64-bit mode and without
/// options, for the first instruction of `code`, where `code` lies at address
/// `ip`.
pub uninterp spec fn decoded_len(code: Seq<u8>, ip: u64) -> usize;

/// The text that the AT&T formatter of `iced_x86` gives, with its default
/// options, for the first instruction of `code`, where `code` lies at address
/// `ip` and is decoded in 64-bit mode without options.
pub uninterp spec fn gas_text(code: Seq<u8>, ip: u64) -> Seq<char>;

/// Calls `iced_x86::Decoder::with_ip` and `Decoder::decode` on `code`, and
/// returns `Instruction::len` of what was decoded.
///
/// Believed of the decoder: the length depends on the bytes and the address
/// alone, is at most 15, and counts no byte that `code` does not hold.
#[verifier::external_body]
fn instruction_len(code: &[u8], ip: u64) -> (len: usize)
    ensures
        len == decoded_len(code@, ip),
        len <= 15,
        len <= code@.len(),
{
    let mut decoder = Decoder::with_ip(64, code, ip, DecoderOptions::NONE);
    decoder.decode().len()
}

/// Calls `iced_x86::Decoder::with_ip` and `Decoder::decode` on `code`, and
/// returns what `GasFormatter::format` writes for the decoded instruction.
///
/// Believed of the formatter: the text depends on the bytes and the address
/// alone.
#[verifier::external_body]
fn instruction_text(code: &[u8], ip: u64) -> (text: String)
    ensures
        text@ == gas_text(code@, ip),
{
    let mut decoder = Decoder::with_ip(64, code, ip, DecoderOptions::NONE);
    let instruction = decoder.decode();
    let mut output = String::new();
    GasFormatter::new().format(&instruction, &mut output);
    output
}

/// Decodes the instruction at the start of `code`, which lies at address
/// `rip`, and returns its length.  There is nothing to decode in no bytes.
pub fn decode_one(code: &[u8], rip: u64) -> (result: Result<usize, ()>)
    ensures
        result.is_ok() <==> code@.len() > 0,
        result matches Ok(len) ==> len == decoded_len(code@, rip) && len <= 15 && len
            <= code@.len(),
{
    if code.len() > 0 {
        Ok(instruction_len(code, rip))
    } else {
        Err(())
    }
}

/// The address of the instruction that follows one of `len` bytes at `rip`.
/// Addresses wrap at 2^64.
pub open spec fn spec_next_rip(rip: u64, len: usize) -> u64 {
    ((rip + len) % 0x1_0000_0000_0000_0000) as u64
}

/// The address of the instruction that follows one of `len` bytes at `rip`.
pub fn next_rip(rip: u64, len: usize) -> (next: u64)
    ensures
        next == spec_next_rip(rip, len),
{
    rip.wrapping_add(len as u64)
}

/// One line of a disassembly.
#[derive(Debug)]
pub struct InstructionLine {
    /// Address of the instruction.
    pub ip: u64,
    /// The bytes of the instruction.
    pub bytes: Vec<u8>,
    /// The instruction in AT&T syntax.
    pub text: String,
}

/// A line of a disassembly as plain values.
pub struct LineView {
    pub ip: u64,
    pub bytes: Seq<u8>,
    pub text: Seq<char>,
}

impl InstructionLine {
    /// The line as plain values.
    pub open spec fn view(&self) -> LineView {
        LineView { ip: self.ip, bytes: self.bytes@, text: self.text@ }
    }
}

/// The disassembly of `code`, which lies at address `ip`, from offset `pos`
/// on: one line for each instruction, until the bytes are used up or an
/// instruction of no length comes.
pub open spec fn disassembly(code: Seq<u8>, ip: u64, pos: int) -> Seq<LineView>
    decreases code.len() - pos,
{
    if 0 <= pos < code.len() {
        let rest = code.subrange(pos, code.len() as int);
        let at = crate::memory::addr_after(ip, pos);
        let len = decoded_len(rest, at);
        if 0 < len <= rest.len() {
            seq![LineView { ip: at, bytes: rest.subrange(0, len as int), text: gas_text(rest, at) }]
                + disassembly(code, ip, pos + len)
        } else {
            Seq::empty()
        }
    } else {
        Seq::empty()
    }
}

/// Whether `lines` are the lines `views`.
pub open spec fn lines_are(lines: Seq<InstructionLine>, views: Seq<LineView>) -> bool {
    lines.len() == views.len() && forall|k: int|
        0 <= k < lines.len() ==> (#[trigger] lines[k])@ == views[k]
}

/// Disassembles `code`, which lies at address `ip`: one line for each
/// instruction, with its address, its bytes and its text.
pub fn disassemble(code: &[u8], ip: u64) -> (lines: Vec<InstructionLine>)
    ensures
        lines_are(lines@, disassembly(code@, ip, 0)),
{
    let mut lines: Vec<InstructionLine> = Vec::new();
    let mut pos: usize = 0;
    let mut at: u64 = ip;
    let ghost mut done: Seq<LineView> = Seq::empty();
    while pos < code.len()
        invariant
            pos <= code@.len(),
            at == crate::memory::addr_after(ip, pos as int),
            lines_are(lines@, done),
            disassembly(code@, ip, 0) == done + disassembly(code@, ip, pos as int),
        decreases code@.len() - pos,
    {
        let rest = slice_subrange(code, pos, code.len());
        let len = instruction_len(rest, at);
        if len == 0 {
            assert(disassembly(code@, ip, pos as int) == Seq::<LineView>::empty());
            assert(done + Seq::<LineView>::empty() =~= done);
            return lines;
        }
        let text = instruction_text(rest, at);
        let bytes = vstd::slice::slice_to_vec(slice_subrange(rest, 0, len));
        let line = InstructionLine { ip: at, bytes, text };
        proof {
            let view = line@;
            assert(disassembly(code@, ip, pos as int) == seq![view] + disassembly(
                code@,
                ip,
                pos + len,
            ));
            assert(done + (seq![view] + disassembly(code@, ip, pos + len)) =~= done.push(view)
                + disassembly(code@, ip, pos + len));
            done = done.push(view);
        }
        lines.push(line);
        pos = pos + len;
        at = at.wrapping_add(len as u64);
    }
    proof {
        assert(disassembly(code@, ip, pos as int) == Seq::<LineView>::empty());
        assert(done + Seq::<LineView>::empty() =~= done);
    }
    lines
}

} // verus!
