//! A read-write, byte-addressable data memory backed by 32-bit words.
use vstd::prelude::*;

use super::MemError;

verus! {

/// A read-write data memory.
pub struct DataMemory {
    mem: Vec<u32>,
}

/// Sizes in bytes that an access may have.
pub open spec fn valid_size(size: usize) -> bool {
    size == 1 || size == 2 || size == 4
}

/// The mask of the low `size` bytes.
pub open spec fn size_mask(size: usize) -> u32 {
    if size == 1 {
        0xff
    } else if size == 2 {
        0xffff
    } else {
        0xffffffff
    }
}

/// Bit position of byte address `addr` within its word.
pub open spec fn byte_shift(addr: usize) -> u32 {
    (8 * (addr % 4)) as u32
}

/// Byte `k` (0 is the least significant) of word `w`.
pub open spec fn byte_of(w: u32, k: u32) -> u32 {
    (w >> (8 * k)) & 0xff
}

/// The error that an access (read or write) of `size` bytes at `addr`
/// meets in a memory of `nwords` words, if any: an invalid size, then an
/// address out of range, then an address that is not a multiple of `size`
/// or whose bytes would cross into the next word.
pub open spec fn access_error(nwords: nat, addr: usize, size: usize) -> Option<MemError> {
    if !valid_size(size) {
        Some(MemError::InvalidSize(size))
    } else if addr / 4 >= nwords {
        Some(MemError::OutOfRange(addr))
    } else if addr % size != 0 || addr % 4 + size > 4 {
        Some(MemError::Unaligned(addr))
    } else {
        None
    }
}

/// The `size` bytes at `addr` read out of its word `w`.
pub open spec fn read_word(w: u32, addr: usize, size: usize) -> u32 {
    (w >> byte_shift(addr)) & size_mask(size)
}

/// Word `w` with the `size` bytes at `addr` replaced by the low bytes of
/// `data`.
pub open spec fn merge_word(w: u32, addr: usize, size: usize, data: u32) -> u32 {
    ((data & size_mask(size)) << byte_shift(addr)) | (w & !(size_mask(size) << byte_shift(addr)))
}

/// The value that a read of `size` bytes at `addr` returns from `words`.
pub open spec fn read_spec(words: Seq<u32>, addr: usize, size: usize) -> u32 {
    read_word(words[(addr / 4) as int], addr, size)
}

/// `words` after `size` bytes of `data` are written at `addr`.
pub open spec fn write_spec(words: Seq<u32>, addr: usize, size: usize, data: u32) -> Seq<u32> {
    words.update((addr / 4) as int, merge_word(words[(addr / 4) as int], addr, size, data))
}

proof fn lemma_shift_bounds(addr: usize)
    ensures
        byte_shift(addr) == 0 || byte_shift(addr) == 8 || byte_shift(addr) == 16 || byte_shift(addr)
            == 24,
        byte_shift(addr) < 32,
{
}

/// An accepted read or write is aligned, `a & (size - 1) == 0`, and stays
/// within one word, `(a & 3) + size <= 4`.
pub proof fn lemma_accepted_access_aligned(nwords: nat, addr: usize, size: usize)
    requires
        access_error(nwords, addr, size) is None,
    ensures
        addr & ((size - 1) as usize) == 0,
        (addr & 3) + size <= 4,
{
    let a = addr as u64;
    assert(a & 3 == a % 4 && a & 1 == a % 2 && a & 0 == 0) by (bit_vector);
    assert(addr & 3 == (a & 3) as usize && addr & 1 == (a & 1) as usize && addr & 0 == 0usize)
        by (bit_vector)
        requires
            a == addr as u64,
    ;
}

/// Writing `data` at an accepted `(addr, size)` and reading back there gives
/// the low `size` bytes of `data`; every other byte of memory is unchanged.
pub proof fn lemma_write_then_read(words: Seq<u32>, addr: usize, size: usize, data: u32)
    requires
        access_error(words.len(), addr, size) is None,
    ensures
        read_spec(write_spec(words, addr, size, data), addr, size) == data & size_mask(size),
        write_spec(words, addr, size, data).len() == words.len(),
        forall|i: int|
            0 <= i < words.len() && i != addr / 4 ==> #[trigger] write_spec(
                words,
                addr,
                size,
                data,
            )[i] == words[i],
        forall|k: u32|
            k < 4 && !(addr % 4 <= k < addr % 4 + size) ==> #[trigger] byte_of(
                write_spec(words, addr, size, data)[(addr / 4) as int],
                k,
            ) == byte_of(words[(addr / 4) as int], k),
{
    let w = words[(addr / 4) as int];
    let sh = byte_shift(addr);
    let m = size_mask(size);
    let off = (addr % 4) as u32;
    lemma_shift_bounds(addr);
    assert(sh == 8 * off);
    assert(off + size as u32 <= 4);
    assert((((((data & m) << sh) | (w & !(m << sh))) >> sh) & m) == data & m) by (bit_vector)
        requires
            sh == 8 * off,
            off < 4,
            m == 0xff || (m == 0xffff && off <= 2) || (m == 0xffffffff && off == 0),
    ;
    assert forall|k: u32| k < 4 && !(off <= k < off + size as u32) implies #[trigger] byte_of(
        merge_word(w, addr, size, data),
        k,
    ) == byte_of(w, k) by {
        let sz = size as u32;
        assert((((((data & m) << sh) | (w & !(m << sh))) >> (8 * k)) & 0xff) == (w >> (8 * k))
            & 0xff) by (bit_vector)
            requires
                sh == 8 * off,
                off < 4,
                k < 4,
                !(off <= k && k < off + sz),
                (m == 0xff && sz == 1) || (m == 0xffff && sz == 2) || (m == 0xffffffff && sz == 4),
                off + sz <= 4,
        ;
    }
}

impl DataMemory {
    /// The memory's words, lowest address first.
    pub closed spec fn words(&self) -> Seq<u32> {
        self.mem@
    }

    /// Constructs a data memory of `nwords` zero words.
    pub fn new(nwords: usize) -> (r: DataMemory)
        ensures
            r.words() == Seq::new(nwords as nat, |i: int| 0u32),
    {
        let mut mem: Vec<u32> = Vec::new();
        let mut i: usize = 0;
        while i < nwords
            invariant
                i <= nwords,
                mem@ == Seq::new(i as nat, |j: int| 0u32),
            decreases nwords - i,
        {
            mem.push(0);
            i = i + 1;
        }
        DataMemory { mem }
    }

    /// Reads `size` (1, 2, or 4) bytes at byte address `addr`.
    pub fn read(&self, addr: usize, size: usize) -> (r: Result<u32, MemError>)
        ensures
            match r {
                Ok(v) => access_error(self.words().len(), addr, size) is None && v == read_spec(
                    self.words(),
                    addr,
                    size,
                ),
                Err(e) => access_error(self.words().len(), addr, size) == Some(e),
            },
    {
        self.check_access(addr, size)?;
        // Split byte address into word address and byte offset
        let word_addr = addr / 4;
        let byte_offset_in_bits = (8 * (addr % 4)) as u32;
        let word = self.mem[word_addr] >> byte_offset_in_bits;
        let mask: u32 = if size == 1 {
            0xff
        } else if size == 2 {
            0xffff
        } else {
            0xffffffff
        };
        Ok(word & mask)
    }

    /// Writes the low `size` (1, 2, or 4) bytes of `data` at byte address
    /// `addr`, leaving the other bytes of the word as they were.
    pub fn write(&mut self, addr: usize, size: usize, data: u32) -> (r: Result<(), MemError>)
        ensures
            match r {
                Ok(_) => access_error(old(self).words().len(), addr, size) is None
                    && final(self).words() == write_spec(old(self).words(), addr, size, data),
                Err(e) => access_error(old(self).words().len(), addr, size) == Some(e)
                    && final(self).words() == old(self).words(),
            },
    {
        self.check_access(addr, size)?;
        // Split byte address into word address and byte offset
        let word_addr = addr / 4;
        let byte_offset_in_bits = (8 * (addr % 4)) as u32;
        let current_word = self.mem[word_addr];
        let mask: u32 = if size == 1 {
            0xff
        } else if size == 2 {
            0xffff
        } else {
            0xffffffff
        };
        let new_word = ((data & mask) << byte_offset_in_bits) | (current_word & !(mask
            << byte_offset_in_bits));
        self.mem.set(word_addr, new_word);
        Ok(())
    }

    fn check_access(&self, addr: usize, size: usize) -> (r: Result<(), MemError>)
        ensures
            match r {
                Ok(_) => access_error(self.words().len(), addr, size) is None,
                Err(e) => access_error(self.words().len(), addr, size) == Some(e),
            },
    {
        if !(size == 1 || size == 2 || size == 4) {
            return Err(MemError::InvalidSize(size));
        }
        if addr / 4 >= self.mem.len() {
            return Err(MemError::OutOfRange(addr));
        }
        if addr % size != 0 || addr % 4 + size > 4 {
            return Err(MemError::Unaligned(addr));
        }
        Ok(())
    }
}

} // verus!
