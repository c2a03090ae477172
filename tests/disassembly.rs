use riscv_5stage_simulator::consts::HALT;
use riscv_5stage_simulator::memory::instruction::{
    captures, extract_addr, extract_insn, DisassemblyInstructionMemory, InstructionMemory,
    LoadError, TestInstructionMemory,
};
use riscv_5stage_simulator::memory::MemError;

#[test]
fn regex() {
    let haystack: &str = "     16c:	00 15 05 13    addi x10 , x10 , 1";
    let caps = captures(haystack.as_bytes()).unwrap();
    assert_eq!(&caps.addr[..], "16c".as_bytes());
    assert_eq!(&caps.byte1[..], "00".as_bytes());
    assert_eq!(&caps.byte2[..], "15".as_bytes());
    assert_eq!(&caps.byte3[..], "05".as_bytes());
    assert_eq!(&caps.byte4[..], "13".as_bytes());

    let haystack: &str = "1c4 <FAIL____src_ins_assembly_test_s>:";
    assert!(captures(haystack.as_bytes()).is_none());
}

#[test]
fn extract_addr_from_regex_captures() {
    let haystack: &str = "     16c:	00 15 05 13    addi x10 , x10 , 1";
    let caps = captures(haystack.as_bytes()).unwrap();
    let addr = extract_addr(&caps).unwrap();
    assert_eq!(addr, 0x16c);
}

#[test]
fn extract_insn_from_regex_captures() {
    let haystack: &str = "     16c:	00 15 05 13    addi x10 , x10 , 1";
    let caps = captures(haystack.as_bytes()).unwrap();
    let insn = extract_insn(&caps).unwrap();
    assert_eq!(insn, 0x00_15_05_13);
}

#[test]
fn captures_need_leading_blank_and_four_pairs() {
    assert!(captures(b"16c:\t00 15 05 13").is_none());
    assert!(captures(b"  16c:\t00 15 05").is_none());
    assert!(captures(b"  16c \t00 15 05 13").is_none());
    assert!(captures(b"  16c:00 15 05 13").is_none());
    assert!(captures(b"  16c:\t00  15 05 13").is_none());
    assert!(captures(b"").is_none());
    let caps = captures(b"\t0:\t\tAB cd Ef 01").unwrap();
    assert_eq!(extract_addr(&caps), Some(0));
    assert_eq!(extract_insn(&caps), Some(0xabcdef01));
}

#[test]
fn address_too_large_is_none() {
    let caps = captures(b" 100000000: 00 00 00 13").unwrap();
    assert_eq!(extract_addr(&caps), None);
    let caps = captures(b" 0000000ffffffff: 00 00 00 13").unwrap();
    assert_eq!(extract_addr(&caps), Some(0xffffffff));
}

#[test]
fn loader_collects_words_and_appends_halt() {
    let text = "\nprogram:     file format elf32-littleriscv\n\n\
                00000000 <_start>:\n\
                \x20  0:\t00 50 02 93          \taddi t0,zero,5\n\
                \x20  4:\t00 62 83 13          \taddi t1,t0,6\n\
                \r\n\
                \x20  8:\t40 53 03 b3          \tsub t2,t1,t0";
    let mem = DisassemblyInstructionMemory::new(text.as_bytes()).unwrap();
    assert_eq!(mem.read(0), Ok(0x00500293));
    assert_eq!(mem.read(4), Ok(0x00628313));
    assert_eq!(mem.read(8), Ok(0x405303b3));
    assert_eq!(mem.read(12), Ok(HALT));
    assert_eq!(mem.read(16), Err(MemError::OutOfRange(16)));
    assert_eq!(mem.read(2), Err(MemError::Unaligned(2)));
}

#[test]
fn loader_rejects_out_of_place_address() {
    let text = "   0:\t00 00 00 13\n   8:\t00 00 00 13\n";
    assert_eq!(
        DisassemblyInstructionMemory::new(text.as_bytes()).err(),
        Some(LoadError::AddressMismatch(8))
    );
    let text = "   4:\t00 00 00 13\n";
    assert_eq!(
        DisassemblyInstructionMemory::new(text.as_bytes()).err(),
        Some(LoadError::AddressMismatch(4))
    );
    let text = "   0:\t00 00 00 13\n   1ffffffff:\t00 00 00 13\n";
    assert_eq!(
        DisassemblyInstructionMemory::new(text.as_bytes()).err(),
        Some(LoadError::InvalidAddress(1))
    );
}

#[test]
fn empty_disassembly_holds_only_halt() {
    let mem = DisassemblyInstructionMemory::new(b"").unwrap();
    assert_eq!(mem.read(0), Ok(HALT));
    assert_eq!(mem.read(4), Err(MemError::OutOfRange(4)));
}

#[test]
fn test_memory_reads_words() {
    let mem = TestInstructionMemory::new(vec![1, 2, 3]);
    assert_eq!(mem.read(8), Ok(3));
    assert_eq!(mem.read(12), Err(MemError::OutOfRange(12)));
    assert_eq!(mem.read(5), Err(MemError::Unaligned(5)));
}
