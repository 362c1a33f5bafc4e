//! Byte-addressed memory as the hypervisor reads it: guest page tables,
//! descriptor tables and the guest's instruction stream.

use vstd::bytes::*;
use vstd::prelude::*;

verus! {

/// A store of bytes, one at each 64-bit address.
///
/// `byte` is the model that contracts speak of; `read_u8` is how the bytes
/// are had.  Memory that changes while it is read is outside this model.
pub trait Memory {
    /// The byte at `addr`.
    spec fn byte(&self, addr: u64) -> u8;

    /// Reads the byte at `addr`.
    fn read_u8(&self, addr: u64) -> (b: u8)
        ensures
            b == self.byte(addr),
    ;
}

/// The address `i` bytes after `addr`; addresses wrap at 2^64.
pub open spec fn addr_after(addr: u64, i: int) -> u64 {
    ((addr + i) % 0x1_0000_0000_0000_0000) as u64
}

/// The `len` bytes of `mem` that start at `addr`.
pub open spec fn bytes_at<M: Memory>(mem: &M, addr: u64, len: nat) -> Seq<u8> {
    Seq::new(len, |i: int| mem.byte(addr_after(addr, i)))
}

/// The little-endian 64-bit word of `mem` that starts at `addr`.
pub open spec fn word_at<M: Memory>(mem: &M, addr: u64) -> u64 {
    spec_u64_from_le_bytes(bytes_at(mem, addr, 8))
}

/// Reads `len` bytes that start at `addr`.
pub fn read_bytes<M: Memory>(mem: &M, addr: u64, len: usize) -> (bytes: Vec<u8>)
    ensures
        bytes@ == bytes_at(mem, addr, len as nat),
{
    let mut bytes: Vec<u8> = Vec::new();
    let mut i: usize = 0;
    let mut at: u64 = addr;
    while i < len
        invariant
            i <= len,
            at == addr_after(addr, i as int),
            bytes@ == bytes_at(mem, addr, i as nat),
        decreases len - i,
    {
        let b = mem.read_u8(at);
        bytes.push(b);
        at = at.wrapping_add(1);
        i = i + 1;
        assert(bytes@ =~= bytes_at(mem, addr, i as nat));
    }
    bytes
}

/// Reads the little-endian 64-bit word that starts at `addr`.
pub fn read_u64<M: Memory>(mem: &M, addr: u64) -> (word: u64)
    ensures
        word == word_at(mem, addr),
{
    let bytes = read_bytes(mem, addr, 8);
    u64_from_le_bytes(bytes.as_slice())
}

/// A run of bytes placed at an address.
struct Segment {
    base: u64,
    bytes: Vec<u8>,
}

impl Segment {
    /// Whether the segment holds a byte for `addr`.
    spec fn covers(&self, addr: u64) -> bool {
        self.base <= addr && addr - self.base < self.bytes@.len()
    }

    /// The byte that the segment holds for `addr`.
    spec fn at(&self, addr: u64) -> u8 {
        self.bytes@[addr - self.base]
    }
}

/// The byte that a list of segments gives for `addr`: that of the last
/// segment that covers the address, and zero where none does.
spec fn byte_in(segments: Seq<Segment>, addr: u64) -> u8
    decreases segments.len(),
{
    if segments.len() == 0 {
        0
    } else if segments.last().covers(addr) {
        segments.last().at(addr)
    } else {
        byte_in(segments.drop_last(), addr)
    }
}

/// Memory held as data: zero everywhere but where bytes were stored.
pub struct MemoryImage {
    segments: Vec<Segment>,
}

impl Memory for MemoryImage {
    closed spec fn byte(&self, addr: u64) -> u8 {
        byte_in(self.segments@, addr)
    }

    fn read_u8(&self, addr: u64) -> (b: u8) {
        let mut i: usize = self.segments.len();
        assert(self.segments@.take(i as int) =~= self.segments@);
        while i > 0
            invariant
                i <= self.segments@.len(),
                byte_in(self.segments@, addr) == byte_in(self.segments@.take(i as int), addr),
            decreases i,
        {
            let seg = &self.segments[i - 1];
            assert(self.segments@.take(i as int).last() == self.segments@[i - 1]);
            assert(self.segments@.take(i as int).drop_last() =~= self.segments@.take(i - 1));
            if seg.base <= addr && addr - seg.base < seg.bytes.len() as u64 {
                return seg.bytes[(addr - seg.base) as usize];
            }
            i = i - 1;
        }
        0
    }
}

impl MemoryImage {
    /// Memory that is zero everywhere.
    pub fn new() -> (mem: MemoryImage)
        ensures
            forall|addr: u64| mem.byte(addr) == 0,
    {
        MemoryImage { segments: Vec::new() }
    }

    /// Stores `bytes` from `base` upwards.  Bytes that would lie past the last
    /// address are not stored.
    pub fn store_bytes(&mut self, base: u64, bytes: &[u8])
        ensures
            forall|addr: u64|
                #![trigger final(self).byte(addr)]
                final(self).byte(addr) == if base <= addr && addr - base < bytes@.len() {
                    bytes@[addr - base]
                } else {
                    old(self).byte(addr)
                },
    {
        let seg = Segment { base, bytes: vstd::slice::slice_to_vec(bytes) };
        let ghost before = self.segments@;
        self.segments.push(seg);
        assert(self.segments@.drop_last() =~= before);
    }

    /// Stores `word` in little-endian order in the eight bytes from `addr`
    /// upwards, which must not wrap.
    pub fn store_u64(&mut self, addr: u64, word: u64)
        requires
            addr <= u64::MAX - 7,
        ensures
            word_at(final(self), addr) == word,
            forall|other: u64|
                #![trigger final(self).byte(other)]
                !(addr <= other <= addr + 7) ==> final(self).byte(other) == old(self).byte(other),
    {
        let bytes = u64_to_le_bytes(word);
        self.store_bytes(addr, bytes.as_slice());
        proof {
            lemma_auto_spec_u64_to_from_le_bytes();
            assert forall|i: int| 0 <= i < 8 implies #[trigger] addr_after(addr, i) == addr + i by {}
            assert(bytes_at(self, addr, 8) =~= bytes@) by {
                assert forall|i: int| 0 <= i < 8 implies bytes_at(self, addr, 8)[i] == bytes@[i] by {
                    let a = addr_after(addr, i);
                    assert(a == addr + i);
                    assert(self.byte(a) == bytes@[a - addr]);
                }
            }
        }
    }
}

} // verus!
