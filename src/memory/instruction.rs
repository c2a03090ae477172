//! Read-only instruction memories, and a loader for disassembler output.
use vstd::prelude::*;

use vstd::slice::slice_subrange;

use super::MemError;
use crate::consts::HALT;

verus! {

/// What fetching byte address `addr` from `words` yields: the word there,
/// or an error when the address lies past the end or is not word-aligned.
pub open spec fn fetch_spec(words: Seq<u32>, addr: usize) -> Result<u32, MemError> {
    if addr / 4 >= words.len() {
        Err(MemError::OutOfRange(addr))
    } else if addr % 4 != 0 {
        Err(MemError::Unaligned(addr))
    } else {
        Ok(words[(addr / 4) as int])
    }
}

/// A read-only, word-addressed instruction memory.
pub trait InstructionMemory {
    /// The instruction words, lowest address first.
    spec fn words(&self) -> Seq<u32>;

    /// Reads the instruction word at byte address `addr`.
    fn read(&self, addr: usize) -> (r: Result<u32, MemError>)
        ensures
            r == fetch_spec(self.words(), addr),
    ;
}

fn read_words(mem: &Vec<u32>, addr: usize) -> (r: Result<u32, MemError>)
    ensures
        r == fetch_spec(mem@, addr),
{
    let word_addr = addr / 4;
    if word_addr >= mem.len() {
        return Err(MemError::OutOfRange(addr));
    }
    if addr % 4 != 0 {
        return Err(MemError::Unaligned(addr));
    }
    Ok(mem[word_addr])
}

/// Instruction memory that holds a given list of words.
pub struct TestInstructionMemory {
    mem: Vec<u32>,
}

impl TestInstructionMemory {
    /// Constructs an instruction memory holding `mem`.
    pub fn new(mem: Vec<u32>) -> (r: TestInstructionMemory)
        ensures
            r.words() == mem@,
    {
        TestInstructionMemory { mem }
    }
}

impl InstructionMemory for TestInstructionMemory {
    closed spec fn words(&self) -> Seq<u32> {
        self.mem@
    }

    fn read(&self, addr: usize) -> (r: Result<u32, MemError>) {
        read_words(&self.mem, addr)
    }
}

/// Instruction memory populated from disassembler output.
pub struct DisassemblyInstructionMemory {
    mem: Vec<u32>,
}

impl DisassemblyInstructionMemory {
    /// Loads disassembler output: every line of the form
    ///
    /// ```text
    ///      16c:	00 15 05 13    addi x10 , x10 , 1
    /// ```
    ///
    /// contributes its word, in order, and a HALT is appended. The N-th such
    /// line must carry the address `4 * (N - 1)`; other lines are ignored.
    pub fn new(disassembly: &[u8]) -> (r: Result<DisassemblyInstructionMemory, LoadError>)
        ensures
            match load_scan(disassembly@, 0, 0, seq![]) {
                Ok(ws) => r matches Ok(m) && m.words() == ws.push(HALT),
                Err(e) => r == Err::<DisassemblyInstructionMemory, LoadError>(e),
            },
    {
        let mut mem: Vec<u32> = Vec::new();
        let mut start: usize = 0;
        let mut i: usize = 0;
        let ghost s = disassembly@;
        let n = disassembly.len();
        while i < n
            invariant
                s == disassembly@,
                n == s.len(),
                start <= i <= n,
                load_scan(s, 0, 0, seq![]) == load_scan(s, start as int, i as int, mem@),
            decreases n - i,
        {
            if disassembly[i] == 0x0a {
                let line = slice_subrange(disassembly, start, i);
                load_line(&mut mem, line)?;
                start = i + 1;
            }
            i = i + 1;
        }
        if start < n {
            let line = slice_subrange(disassembly, start, n);
            load_line(&mut mem, line)?;
        }
        mem.push(HALT);
        Ok(DisassemblyInstructionMemory { mem })
    }
}

impl InstructionMemory for DisassemblyInstructionMemory {
    closed spec fn words(&self) -> Seq<u32> {
        self.mem@
    }

    fn read(&self, addr: usize) -> (r: Result<u32, MemError>) {
        read_words(&self.mem, addr)
    }
}

/// Why disassembler output could not be loaded.
#[derive(Clone, Copy, Debug, PartialEq, Eq, Structural)]
pub enum LoadError {
    /// A line's address does not fit in 32 bits; carries the number of
    /// words loaded before it.
    InvalidAddress(usize),
    /// A line's address is not the position of its word; carries the
    /// address found.
    AddressMismatch(u32),
}

/// The regions of a disassembly line that its parts were found in.
pub struct Captures {
    /// The address, in hexadecimal
    pub addr: Vec<u8>,
    /// The instruction's bytes, most significant first, two hexadecimal
    /// digits each
    pub byte1: Vec<u8>,
    pub byte2: Vec<u8>,
    pub byte3: Vec<u8>,
    pub byte4: Vec<u8>,
}

/// A space or a tab.
pub open spec fn is_blank(b: u8) -> bool {
    b == 0x20 || b == 0x09
}

/// A hexadecimal digit, in either case.
pub open spec fn is_xdigit(b: u8) -> bool {
    (0x30 <= b <= 0x39) || (0x41 <= b <= 0x46) || (0x61 <= b <= 0x66)
}

/// The value of hexadecimal digit `b`.
pub open spec fn hex_digit(b: u8) -> nat {
    if b <= 0x39 {
        (b - 0x30) as nat
    } else if b <= 0x46 {
        (b - 0x41 + 10) as nat
    } else {
        (b - 0x61 + 10) as nat
    }
}

/// The value of the hexadecimal numeral `s`, most significant digit first.
pub open spec fn hex_value(s: Seq<u8>) -> nat
    decreases s.len(),
{
    if s.len() == 0 {
        0
    } else {
        hex_value(s.drop_last()) * 16 + hex_digit(s.last())
    }
}

/// Every byte of `s` is a hexadecimal digit.
pub open spec fn all_xdigits(s: Seq<u8>) -> bool {
    forall|i: int| 0 <= i < s.len() ==> is_xdigit(#[trigger] s[i])
}

/// Length of the run of blanks in `s` that starts at `i`.
pub open spec fn blank_run(s: Seq<u8>, i: int) -> int
    decreases s.len() - i,
{
    if 0 <= i < s.len() && is_blank(s[i]) {
        1 + blank_run(s, i + 1)
    } else {
        0
    }
}

/// Length of the run of hexadecimal digits in `s` that starts at `i`.
pub open spec fn xdigit_run(s: Seq<u8>, i: int) -> int
    decreases s.len() - i,
{
    if 0 <= i < s.len() && is_xdigit(s[i]) {
        1 + xdigit_run(s, i + 1)
    } else {
        0
    }
}

/// At `b` stand four pairs of hexadecimal digits, each of the first three
/// followed by one blank.
pub open spec fn byte_group(s: Seq<u8>, b: int) -> bool {
    &&& 0 <= b && b + 11 <= s.len()
    &&& is_xdigit(s[b]) && is_xdigit(s[b + 1]) && is_blank(s[b + 2])
    &&& is_xdigit(s[b + 3]) && is_xdigit(s[b + 4]) && is_blank(s[b + 5])
    &&& is_xdigit(s[b + 6]) && is_xdigit(s[b + 7]) && is_blank(s[b + 8])
    &&& is_xdigit(s[b + 9]) && is_xdigit(s[b + 10])
}

/// Where the parts of a disassembly line stand, if it is one: the start
/// and end of its address and the start of its bytes. A line is one when it
/// holds, from its start, blanks, a hexadecimal address, a colon, blanks,
/// and four blank-separated pairs of hexadecimal digits; anything may follow.
pub open spec fn capture_positions(s: Seq<u8>) -> Option<(int, int, int)> {
    let a = blank_run(s, 0);
    let e = a + xdigit_run(s, a);
    let b = e + 1 + blank_run(s, e + 1);
    if a > 0 && e > a && e < s.len() && s[e] == 0x3a && b > e + 1 && byte_group(s, b) {
        Some((a, e, b))
    } else {
        None
    }
}

/// The address that numeral `s` denotes, if it is one that fits in 32 bits.
pub open spec fn addr_value(s: Seq<u8>) -> Option<u32> {
    if s.len() > 0 && all_xdigits(s) && hex_value(s) <= u32::MAX {
        Some(hex_value(s) as u32)
    } else {
        None
    }
}

/// The byte that numeral `s` denotes, if it is two hexadecimal digits.
pub open spec fn byte_value(s: Seq<u8>) -> Option<u32> {
    if s.len() == 2 && all_xdigits(s) {
        Some(hex_value(s) as u32)
    } else {
        None
    }
}

/// The word that four byte numerals denote, most significant first.
pub open spec fn insn_value(b1: Seq<u8>, b2: Seq<u8>, b3: Seq<u8>, b4: Seq<u8>) -> Option<u32> {
    match (byte_value(b1), byte_value(b2), byte_value(b3), byte_value(b4)) {
        (Some(v1), Some(v2), Some(v3), Some(v4)) => Some(
            (v1 * 0x1000000 + v2 * 0x10000 + v3 * 0x100 + v4) as u32,
        ),
        _ => None,
    }
}

/// The words loaded so far, `acc`, after line `line`: unchanged for a line
/// that is not a disassembly line, else with its word appended, or the
/// error that its address meets.
pub open spec fn load_line_spec(acc: Seq<u32>, line: Seq<u8>) -> Result<Seq<u32>, LoadError> {
    match capture_positions(line) {
        None => Ok(acc),
        Some((a, e, b)) => match addr_value(line.subrange(a, e)) {
            None => Err(LoadError::InvalidAddress(acc.len() as usize)),
            Some(addr) => if addr != 4 * acc.len() {
                Err(LoadError::AddressMismatch(addr))
            } else {
                match insn_value(
                    line.subrange(b, b + 2),
                    line.subrange(b + 3, b + 5),
                    line.subrange(b + 6, b + 8),
                    line.subrange(b + 9, b + 11),
                ) {
                    Some(w) => Ok(acc.push(w)),
                    None => Ok(acc),
                }
            },
        },
    }
}

/// The words loaded from text `s`, given the words `acc` loaded before the
/// current line, which starts at `start`, and the scan position `i`; lines
/// end at a newline.
pub open spec fn load_scan(s: Seq<u8>, start: int, i: int, acc: Seq<u32>) -> Result<
    Seq<u32>,
    LoadError,
>
    decreases s.len() - i,
{
    if i >= s.len() {
        if start < s.len() {
            load_line_spec(acc, s.subrange(start, s.len() as int))
        } else {
            Ok(acc)
        }
    } else if s[i] == 0x0a {
        match load_line_spec(acc, s.subrange(start, i)) {
            Err(e) => Err(e),
            Ok(next) => load_scan(s, i + 1, i + 1, next),
        }
    } else {
        load_scan(s, start, i + 1, acc)
    }
}

fn is_blank_byte(b: u8) -> (r: bool)
    ensures
        r == is_blank(b),
{
    b == 0x20 || b == 0x09
}

fn hex_digit_value(b: u8) -> (r: Option<u32>)
    ensures
        r == (if is_xdigit(b) {
            Some(hex_digit(b) as u32)
        } else {
            None::<u32>
        }),
{
    if 0x30 <= b && b <= 0x39 {
        Some((b - 0x30) as u32)
    } else if 0x41 <= b && b <= 0x46 {
        Some((b - 0x41 + 10) as u32)
    } else if 0x61 <= b && b <= 0x66 {
        Some((b - 0x61 + 10) as u32)
    } else {
        None
    }
}

fn copy_range(s: &[u8], from: usize, to: usize) -> (r: Vec<u8>)
    requires
        from <= to <= s@.len(),
    ensures
        r@ == s@.subrange(from as int, to as int),
{
    let mut v: Vec<u8> = Vec::new();
    let mut k: usize = from;
    while k < to
        invariant
            from <= k <= to <= s@.len(),
            v@ == s@.subrange(from as int, k as int),
        decreases to - k,
    {
        v.push(s[k]);
        k = k + 1;
        assert(v@ =~= s@.subrange(from as int, k as int));
    }
    v
}

/// Finds the parts of a disassembly line, if `line` is one.
pub fn captures(line: &[u8]) -> (r: Option<Captures>)
    ensures
        match capture_positions(line@) {
            None => r is None,
            Some((a, e, b)) => r matches Some(c) && c.addr@ == line@.subrange(a, e)
                && c.byte1@ == line@.subrange(b, b + 2) && c.byte2@ == line@.subrange(b + 3, b + 5)
                && c.byte3@ == line@.subrange(b + 6, b + 8) && c.byte4@ == line@.subrange(
                b + 9,
                b + 11,
            ),
        },
{
    let ghost s = line@;
    let n = line.len();
    let mut a: usize = 0;
    while a < n && is_blank_byte(line[a])
        invariant
            a <= n == s.len(),
            s == line@,
            blank_run(s, 0) == a + blank_run(s, a as int),
        decreases n - a,
    {
        a = a + 1;
    }
    if a == 0 {
        return None;
    }
    let mut e: usize = a;
    while e < n && hex_digit_value(line[e]).is_some()
        invariant
            a <= e <= n == s.len(),
            s == line@,
            xdigit_run(s, a as int) == (e - a) + xdigit_run(s, e as int),
        decreases n - e,
    {
        e = e + 1;
    }
    if e == a || e >= n || line[e] != 0x3a {
        return None;
    }
    let mut b: usize = e + 1;
    while b < n && is_blank_byte(line[b])
        invariant
            e + 1 <= b <= n == s.len(),
            s == line@,
            blank_run(s, e + 1) == (b - (e + 1)) + blank_run(s, b as int),
        decreases n - b,
    {
        b = b + 1;
    }
    if b == e + 1 || n < 11 || b > n - 11 {
        return None;
    }
    if !(hex_digit_value(line[b]).is_some() && hex_digit_value(line[b + 1]).is_some()
        && is_blank_byte(line[b + 2]) && hex_digit_value(line[b + 3]).is_some()
        && hex_digit_value(line[b + 4]).is_some() && is_blank_byte(line[b + 5])
        && hex_digit_value(line[b + 6]).is_some() && hex_digit_value(line[b + 7]).is_some()
        && is_blank_byte(line[b + 8]) && hex_digit_value(line[b + 9]).is_some()
        && hex_digit_value(line[b + 10]).is_some()) {
        return None;
    }
    Some(
        Captures {
            addr: copy_range(line, a, e),
            byte1: copy_range(line, b, b + 2),
            byte2: copy_range(line, b + 3, b + 5),
            byte3: copy_range(line, b + 6, b + 8),
            byte4: copy_range(line, b + 9, b + 11),
        },
    )
}

/// A prefix of a numeral denotes at most what the whole does.
proof fn lemma_hex_prefix_le(s: Seq<u8>, i: int)
    requires
        0 <= i <= s.len(),
    ensures
        hex_value(s.take(i)) <= hex_value(s),
    decreases s.len(),
{
    if i < s.len() {
        assert(s.drop_last().take(i) =~= s.take(i));
        lemma_hex_prefix_le(s.drop_last(), i);
    } else {
        assert(s.take(i) =~= s);
    }
}

/// Parses a hexadecimal numeral that fits in 32 bits.
fn parse_hex(s: &Vec<u8>) -> (r: Option<u32>)
    ensures
        r == addr_value(s@),
{
    let n = s.len();
    if n == 0 {
        return None;
    }
    let mut acc: u32 = 0;
    let mut i: usize = 0;
    while i < n
        invariant
            i <= n == s@.len(),
            acc == hex_value(s@.take(i as int)),
            all_xdigits(s@.take(i as int)),
        decreases n - i,
    {
        assert(s@.take(i as int + 1).drop_last() =~= s@.take(i as int));
        let d = match hex_digit_value(s[i]) {
            Some(d) => d,
            None => return None,
        };
        if acc > 0x0fff_ffff {
            proof {
                lemma_hex_prefix_le(s@, i as int + 1);
            }
            return None;
        }
        acc = acc * 16 + d;
        i = i + 1;
        assert(all_xdigits(s@.take(i as int))) by {
            assert forall|k: int| 0 <= k < i implies is_xdigit(#[trigger] s@.take(i as int)[k]) by {
                if k < i - 1 {
                    assert(s@.take(i as int)[k] == s@.take(i - 1)[k]);
                }
            }
        }
    }
    assert(s@.take(n as int) =~= s@);
    Some(acc)
}

/// Converts the captured address to a number.
pub fn extract_addr(caps: &Captures) -> (r: Option<u32>)
    ensures
        r == addr_value(caps.addr@),
{
    parse_hex(&caps.addr)
}

/// Converts a captured pair of hexadecimal digits to a byte.
fn parse_byte(s: &Vec<u8>) -> (r: Option<u32>)
    ensures
        r == byte_value(s@),
        r matches Some(v) ==> v < 256,
{
    if s.len() != 2 {
        return None;
    }
    let hi = match hex_digit_value(s[0]) {
        Some(d) => d,
        None => return None,
    };
    let lo = match hex_digit_value(s[1]) {
        Some(d) => d,
        None => return None,
    };
    let ghost t = s@;
    assert(t.drop_last().drop_last() =~= Seq::<u8>::empty());
    assert(t.drop_last().last() == t[0]);
    assert(hex_value(t.drop_last().drop_last()) == 0);
    assert(hex_value(t.drop_last()) == hex_digit(t[0]));
    assert(hex_value(t) == hex_digit(t[0]) * 16 + hex_digit(t[1]));
    assert(all_xdigits(t));
    Some(hi * 16 + lo)
}

/// Converts the captured bytes to an instruction word.
pub fn extract_insn(caps: &Captures) -> (r: Option<u32>)
    ensures
        r == insn_value(caps.byte1@, caps.byte2@, caps.byte3@, caps.byte4@),
{
    let b1 = parse_byte(&caps.byte1)?;
    let b2 = parse_byte(&caps.byte2)?;
    let b3 = parse_byte(&caps.byte3)?;
    let b4 = parse_byte(&caps.byte4)?;
    Some(b1 * 0x1000000 + b2 * 0x10000 + b3 * 0x100 + b4)
}

/// Loads one line of disassembler output into `mem`.
fn load_line(mem: &mut Vec<u32>, line: &[u8]) -> (r: Result<(), LoadError>)
    ensures
        match load_line_spec(old(mem)@, line@) {
            Ok(ws) => r is Ok && final(mem)@ == ws,
            Err(e) => r == Err::<(), LoadError>(e),
        },
{
    let caps = match captures(line) {
        Some(caps) => caps,
        // Lines that are not disassembly lines are ignored.
        None => return Ok(()),
    };
    let addr = match extract_addr(&caps) {
        Some(addr) => addr,
        None => return Err(LoadError::InvalidAddress(mem.len())),
    };
    // The address must be the word's position in memory.
    if mem.len() > 0x3fff_ffff || addr != 4 * (mem.len() as u32) {
        return Err(LoadError::AddressMismatch(addr));
    }
    if let Some(insn) = extract_insn(&caps) {
        mem.push(insn);
    }
    Ok(())
}

} // verus!
