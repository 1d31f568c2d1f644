//! A byte-addressable memory of fixed size, mapped at a fixed base address,
//! that is read and written in little-endian units of 1, 2, 4 or 8 bytes.
//!
//! What a read yields and what a write leaves behind are stated by `load`
//! and `store`, over `le_value` and `le_bytes`. The two are defined by
//! recursion over the bytes; `lemma_le_value_written_out` and
//! `lemma_le_bytes_written_out` give them byte by byte for the widths in use.

use vstd::arithmetic::div_mod::{lemma_div_denominator, lemma_mod_breakdown, lemma_small_mod};
use vstd::arithmetic::power2::{
    lemma2_to64,
    lemma2_to64_rest,
    lemma_pow2_adds,
    lemma_pow2_pos,
    lemma_pow2_strictly_increases,
    pow2,
};
use vstd::prelude::*;

verus! {

/// Number of bytes of memory.
pub const DRAM_SIZE: usize = 0x10_0000;

/// Address of the first byte of memory.
pub const DRAM_BASE_ADDR: usize = 0x8000_0000;

pub struct DramMemory {
    pub mem: Vec<u8>,
}

/// The number that a run of bytes spells, least significant byte first.
pub open spec fn le_value(bytes: Seq<u8>) -> nat
    decreases bytes.len(),
{
    if bytes.len() == 0 {
        0
    } else {
        bytes[0] as nat + 256 * le_value(bytes.drop_first())
    }
}

/// The `count` low bytes of `value`, least significant byte first. What
/// `value` holds above them is left out.
pub open spec fn le_bytes(value: nat, count: nat) -> Seq<u8>
    decreases count,
{
    if count == 0 {
        Seq::empty()
    } else {
        seq![(value % 256) as u8] + le_bytes(value / 256, (count - 1) as nat)
    }
}

/// `mem` with the bytes from `offset` on replaced by `bytes`.
pub open spec fn store_bytes(mem: Seq<u8>, offset: int, bytes: Seq<u8>) -> Seq<u8> {
    Seq::new(
        mem.len(),
        |i: int|
            if offset <= i < offset + bytes.len() {
                bytes[i - offset]
            } else {
                mem[i]
            },
    )
}

/// Whether `size` is a width in bits that the memory is accessed in.
pub open spec fn valid_width(size: int) -> bool {
    size == 8 || size == 16 || size == 32 || size == 64
}

/// Whether the `count` bytes from address `addr` on all lie inside the memory.
pub open spec fn in_dram(addr: int, count: int) -> bool {
    DRAM_BASE_ADDR <= addr && addr + count <= DRAM_BASE_ADDR + DRAM_SIZE
}

/// What a read of `size` bits at address `addr` yields from memory contents `mem`.
pub open spec fn load(mem: Seq<u8>, addr: int, size: int) -> nat {
    le_value(mem.subrange(addr - DRAM_BASE_ADDR, addr - DRAM_BASE_ADDR + size / 8))
}

/// The memory contents after the low `size` bits of `value` are written at
/// address `addr` into `mem`.
pub open spec fn store(mem: Seq<u8>, addr: int, size: int, value: nat) -> Seq<u8> {
    store_bytes(mem, addr - DRAM_BASE_ADDR, le_bytes(value, (size / 8) as nat))
}

/// The number that 1, 2, 4 or 8 bytes spell, written out: each byte weighs
/// 256 times the one before it.
pub proof fn lemma_le_value_written_out(bytes: Seq<u8>)
    ensures
        bytes.len() == 1 ==> le_value(bytes) == bytes[0],
        bytes.len() == 2 ==> le_value(bytes) == bytes[0] + 0x100 * bytes[1],
        bytes.len() == 4 ==> le_value(bytes) == bytes[0] + 0x100 * bytes[1] + 0x1_0000 * bytes[2]
            + 0x100_0000 * bytes[3],
        bytes.len() == 8 ==> le_value(bytes) == bytes[0] + 0x100 * bytes[1] + 0x1_0000 * bytes[2]
            + 0x100_0000 * bytes[3] + 0x1_0000_0000 * bytes[4] + 0x100_0000_0000 * bytes[5]
            + 0x1_0000_0000_0000 * bytes[6] + 0x100_0000_0000_0000 * bytes[7],
{
    reveal_with_fuel(le_value, 9);
}

/// Byte `k` of the low bytes of a number is its digit of weight `256^k`.
pub proof fn lemma_le_bytes_index(value: nat, count: nat, k: nat)
    requires
        k < count,
    ensures
        le_bytes(value, count).len() == count,
        le_bytes(value, count)[k as int] == (value / pow2(8 * k)) % 256,
    decreases k,
{
    lemma2_to64();
    lemma_le_bytes_len(value, count);
    let rest = le_bytes(value / 256, (count - 1) as nat);
    lemma_le_bytes_len(value / 256, (count - 1) as nat);
    assert(le_bytes(value, count) == seq![(value % 256) as u8] + rest);
    if k == 0 {
        assert(pow2(8 * k) == 1);
    } else {
        let e = (8 * (k - 1)) as nat;
        lemma_le_bytes_index(value / 256, (count - 1) as nat, (k - 1) as nat);
        assert(le_bytes(value, count)[k as int] == rest[k - 1]);
        lemma_pow2_pos(e);
        lemma_pow2_adds(8, e);
        assert(8 * k == 8 + e);
        lemma_div_denominator(value as int, 256, pow2(e) as int);
    }
}

/// The low bytes of a number, written out: byte `k` is the digit of weight
/// `256^k`.
pub proof fn lemma_le_bytes_written_out(value: nat, count: nat)
    ensures
        le_bytes(value, count).len() == count,
        count > 0 ==> le_bytes(value, count)[0] == value % 0x100,
        count > 1 ==> le_bytes(value, count)[1] == (value / 0x100) % 0x100,
        count > 2 ==> le_bytes(value, count)[2] == (value / 0x1_0000) % 0x100,
        count > 3 ==> le_bytes(value, count)[3] == (value / 0x100_0000) % 0x100,
        count > 4 ==> le_bytes(value, count)[4] == (value / 0x1_0000_0000) % 0x100,
        count > 5 ==> le_bytes(value, count)[5] == (value / 0x100_0000_0000) % 0x100,
        count > 6 ==> le_bytes(value, count)[6] == (value / 0x1_0000_0000_0000) % 0x100,
        count > 7 ==> le_bytes(value, count)[7] == (value / 0x100_0000_0000_0000) % 0x100,
{
    lemma2_to64();
    lemma2_to64_rest();
    lemma_le_bytes_len(value, count);
    if count > 0 {
        lemma_le_bytes_index(value, count, 0);
    }
    if count > 1 {
        lemma_le_bytes_index(value, count, 1);
    }
    if count > 2 {
        lemma_le_bytes_index(value, count, 2);
    }
    if count > 3 {
        lemma_le_bytes_index(value, count, 3);
    }
    if count > 4 {
        lemma_le_bytes_index(value, count, 4);
    }
    if count > 5 {
        lemma_le_bytes_index(value, count, 5);
    }
    if count > 6 {
        lemma_le_bytes_index(value, count, 6);
    }
    if count > 7 {
        lemma_le_bytes_index(value, count, 7);
    }
}

/// A run of `n` bytes spells a number below `2^(8n)`.
pub proof fn lemma_le_value_bound(bytes: Seq<u8>)
    ensures
        le_value(bytes) < pow2(8 * bytes.len()),
    decreases bytes.len(),
{
    lemma2_to64();
    if bytes.len() > 0 {
        let rest = bytes.drop_first();
        lemma_le_value_bound(rest);
        lemma_pow2_adds(8, 8 * rest.len());
        assert(8 * bytes.len() == 8 + 8 * rest.len());
        assert(256 * (le_value(rest) + 1) <= 256 * pow2(8 * rest.len())) by (nonlinear_arith)
            requires
                le_value(rest) + 1 <= pow2(8 * rest.len()),
        ;
    }
}

/// A number has as many low bytes as are asked for.
pub proof fn lemma_le_bytes_len(value: nat, count: nat)
    ensures
        le_bytes(value, count).len() == count,
    decreases count,
{
    if count > 0 {
        lemma_le_bytes_len(value / 256, (count - 1) as nat);
    }
}

/// The bytes of a number spell that number again, as far as they hold it:
/// modulo `2^(8 * count)`.
pub proof fn lemma_le_round_trip(value: nat, count: nat)
    ensures
        le_value(le_bytes(value, count)) == value % pow2(8 * count),
    decreases count,
{
    lemma2_to64();
    let bytes = le_bytes(value, count);
    if count == 0 {
        assert(value % 1 == 0);
    } else {
        let rest = (count - 1) as nat;
        lemma_le_round_trip(value / 256, rest);
        assert(bytes.drop_first() =~= le_bytes(value / 256, rest));
        assert(bytes[0] == value % 256);
        lemma_pow2_pos(8 * rest);
        lemma_pow2_adds(8, 8 * rest);
        assert(8 * count == 8 + 8 * rest);
        lemma_mod_breakdown(value as int, 256, pow2(8 * rest) as int);
    }
}

/// A read of the place that was just written, in the same width, yields what
/// was written: the value modulo `2^size`, so a value that fits in the width
/// comes back unchanged.
pub proof fn lemma_load_after_store(mem: Seq<u8>, addr: int, size: int, value: nat)
    requires
        mem.len() == DRAM_SIZE,
        valid_width(size),
        in_dram(addr, size / 8),
    ensures
        load(store(mem, addr, size, value), addr, size) == value % pow2(size as nat),
        value < pow2(size as nat) ==> load(store(mem, addr, size, value), addr, size) == value,
{
    let count = (size / 8) as nat;
    let offset = addr - DRAM_BASE_ADDR;
    let after = store(mem, addr, size, value);
    lemma_le_bytes_len(value, count);
    assert(after.subrange(offset, offset + count) =~= le_bytes(value, count));
    lemma_le_round_trip(value, count);
    assert(8 * count == size);
    lemma_pow2_pos(size as nat);
    if value < pow2(size as nat) {
        lemma_small_mod(value, pow2(size as nat));
    }
}

/// A write leaves every read that shares no byte with it as it was.
pub proof fn lemma_load_apart_from_store(
    mem: Seq<u8>,
    addr: int,
    size: int,
    value: nat,
    other_addr: int,
    other_size: int,
)
    requires
        mem.len() == DRAM_SIZE,
        valid_width(size),
        valid_width(other_size),
        in_dram(addr, size / 8),
        in_dram(other_addr, other_size / 8),
        other_addr + other_size / 8 <= addr || addr + size / 8 <= other_addr,
    ensures
        load(store(mem, addr, size, value), other_addr, other_size) == load(
            mem,
            other_addr,
            other_size,
        ),
{
    let after = store(mem, addr, size, value);
    let lo = other_addr - DRAM_BASE_ADDR;
    let hi = lo + other_size / 8;
    lemma_le_bytes_len(value, (size / 8) as nat);
    assert(after.subrange(lo, hi) =~= mem.subrange(lo, hi));
}

impl View for DramMemory {
    type V = Seq<u8>;

    open spec fn view(&self) -> Seq<u8> {
        self.mem@
    }
}

impl DramMemory {
    /// The memory holds exactly `DRAM_SIZE` bytes.
    pub open spec fn wf(&self) -> bool {
        self.mem@.len() == DRAM_SIZE
    }

    /// A memory of `DRAM_SIZE` zero bytes.
    pub fn new() -> (dram: DramMemory)
        ensures
            dram.wf(),
            forall|i: int| 0 <= i < DRAM_SIZE ==> dram@[i] == 0,
    {
        DramMemory { mem: vec![0u8; DRAM_SIZE] }
    }

    /// Places a program image at the start of memory: byte `i` of the image
    /// goes to address `DRAM_BASE_ADDR + i`. What lies behind the image stays
    /// as it was.
    pub fn load_image(&mut self, image: &[u8])
        requires
            old(self).wf(),
            image@.len() <= DRAM_SIZE,
        ensures
            final(self).wf(),
            final(self)@ == store_bytes(old(self)@, 0, image@),
    {
        let mut i: usize = 0;
        while i < image.len()
            invariant
                i <= image@.len() <= self.mem@.len() == DRAM_SIZE,
                forall|j: int|
                    0 <= j < self.mem@.len() ==> #[trigger] self.mem@[j] == if j < i {
                        image@[j]
                    } else {
                        old(self).mem@[j]
                    },
            decreases image@.len() - i,
        {
            self.mem[i] = image[i];
            i = i + 1;
        }
        assert(self@ =~= store_bytes(old(self)@, 0, image@));
    }

    /// Whether an access of `size` bits at `addr` stays inside the memory.
    pub fn contains(addr: u64, size: usize) -> (inside: bool)
        ensures
            inside == in_dram(addr as int, size as int / 8),
    {
        let count: usize = size / 8;
        count <= DRAM_SIZE && addr >= DRAM_BASE_ADDR as u64 && addr - DRAM_BASE_ADDR as u64 <= (
        DRAM_SIZE - count) as u64
    }

    /// Reads `size` bits, 8, 16, 32 or 64, at address `addr`: the `size / 8`
    /// bytes from `addr` on, the first of them least significant.
    pub fn dram_read(&self, addr: usize, size: usize) -> (value: u64)
        requires
            self.wf(),
            valid_width(size as int),
            in_dram(addr as int, size as int / 8),
        ensures
            value == load(self@, addr as int, size as int),
    {
        let count: usize = size / 8;
        let offset: usize = addr - DRAM_BASE_ADDR;
        let mut value: u64 = 0;
        let mut i: usize = count;
        proof {
            lemma2_to64();
            assert(self@.subrange(offset + count, offset + count).len() == 0);
        }
        while i > 0
            invariant
                i <= count <= 8,
                offset + count <= self.mem@.len() == DRAM_SIZE,
                value == le_value(self@.subrange(offset + i, offset + count)),
            decreases i,
        {
            i = i - 1;
            let byte: u8 = self.mem[offset + i];
            proof {
                let tail = self@.subrange(offset + i + 1, offset + count);
                let run = self@.subrange(offset + i, offset + count);
                assert(run.drop_first() =~= tail);
                assert(run[0] == byte);
                lemma_le_value_bound(tail);
                lemma2_to64();
                if tail.len() < 7 {
                    lemma_pow2_strictly_increases(8 * tail.len(), 56);
                }
                lemma_pow2_adds(56, 8);
            }
            value = value * 256 + byte as u64;
        }
        value
    }

    /// Writes the low `size` bits of `value`, `size` being 8, 16, 32 or 64, at
    /// address `addr`, least significant byte first. Bits of `value` above
    /// them are left out, and every other byte of memory stays as it was.
    pub fn dram_write(&mut self, addr: usize, size: usize, value: u64)
        requires
            old(self).wf(),
            valid_width(size as int),
            in_dram(addr as int, size as int / 8),
        ensures
            final(self).wf(),
            final(self)@ == store(old(self)@, addr as int, size as int, value as nat),
    {
        let count: usize = size / 8;
        let offset: usize = addr - DRAM_BASE_ADDR;
        let mut rest: u64 = value;
        let mut i: usize = 0;
        while i < count
            invariant
                i <= count <= 8,
                offset + count <= self.mem@.len() == DRAM_SIZE,
                le_bytes(value as nat, count as nat) == self.mem@.subrange(
                    offset as int,
                    offset + i,
                ) + le_bytes(rest as nat, (count - i) as nat),
                forall|j: int|
                    0 <= j < offset || offset + i <= j < DRAM_SIZE ==> self.mem@[j] == old(
                        self,
                    ).mem@[j],
            decreases count - i,
        {
            let byte: u8 = (rest % 256) as u8;
            let ghost done = self.mem@.subrange(offset as int, offset + i);
            self.mem[offset + i] = byte;
            proof {
                let tail = le_bytes((rest / 256) as nat, (count - i - 1) as nat);
                assert(self.mem@.subrange(offset as int, offset + i + 1) =~= done.push(byte));
                assert(done + (seq![byte] + tail) =~= done.push(byte) + tail);
            }
            rest = rest / 256;
            i = i + 1;
        }
        proof {
            let bytes = le_bytes(value as nat, count as nat);
            assert(bytes =~= self.mem@.subrange(offset as int, offset + count));
            assert(self@ =~= store(old(self)@, addr as int, size as int, value as nat));
        }
    }
}

} // verus!
