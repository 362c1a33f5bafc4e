use htvmm::emu::{decode_one, disassemble, next_rip, DECODE_WINDOW};

#[test]
fn decode_one_gives_the_length() {
    assert_eq!(DECODE_WINDOW, 10);
    assert_eq!(decode_one(&[0x90], 0), Ok(1));
    assert_eq!(decode_one(&[0x0f, 0xa2], 0x1000), Ok(2));
    assert_eq!(decode_one(&[0x0f, 0x22, 0xdb], 0x1000), Ok(3));
    assert_eq!(decode_one(&[0x0f, 0x22, 0xdb, 0x90, 0x90, 0x90, 0x90, 0x90, 0x90, 0x90], 0), Ok(3));
    assert_eq!(decode_one(&[0xf4, 0, 0, 0, 0, 0, 0, 0, 0, 0], u64::MAX), Ok(1));
    // movabs $0x0807060504030201,%rax
    assert_eq!(decode_one(&[0x48, 0xb8, 1, 2, 3, 4, 5, 6, 7, 8], 0), Ok(10));
    // lea 0x12345678(%rax,%rbx,4),%rcx
    assert_eq!(decode_one(&[0x48, 0x8d, 0x8c, 0x98, 0x78, 0x56, 0x34, 0x12, 0x90, 0x90], 0), Ok(8));
}

#[test]
fn decode_one_of_nothing() {
    assert_eq!(decode_one(&[], 0x1000), Err(()));
}

#[test]
fn decode_one_never_counts_more_than_it_was_given() {
    // cut short
    let len = decode_one(&[0x48, 0xb8, 1, 2], 0).unwrap();
    assert!(len <= 4);
    // fifteen prefixes and more
    let len = decode_one(&[0x66; 32], 0).unwrap();
    assert!(len <= 15);
}

#[test]
fn next_rip_wraps() {
    assert_eq!(next_rip(0x1000, 3), 0x1003);
    assert_eq!(next_rip(0x1000, 0), 0x1000);
    assert_eq!(next_rip(u64::MAX, 1), 0);
    assert_eq!(next_rip(u64::MAX - 1, 15), 13);
}

#[test]
fn disassemble_lines() {
    let code = [0x90, 0x0f, 0xa2, 0x48, 0x89, 0xd8, 0xf4];
    let lines = disassemble(&code, 0x7c00);
    let texts: Vec<&str> = lines.iter().map(|l| l.text.as_str()).collect();
    assert_eq!(texts, vec!["nop", "cpuid", "mov %rbx,%rax", "hlt"]);
    let ips: Vec<u64> = lines.iter().map(|l| l.ip).collect();
    assert_eq!(ips, vec![0x7c00, 0x7c01, 0x7c03, 0x7c06]);
    let mut joined = Vec::new();
    for line in &lines {
        joined.extend_from_slice(&line.bytes);
    }
    assert_eq!(joined, code.to_vec());
    assert!(disassemble(&[], 0).is_empty());
}

#[test]
fn disassemble_uses_the_address() {
    // jmp to itself: the target is printed as an address
    let lines = disassemble(&[0xeb, 0xfe], 0x1000);
    assert_eq!(lines.len(), 1);
    assert_eq!(lines[0].text, "jmp 0x0000000000001000");
    let lines = disassemble(&[0xeb, 0xfe], 0x2000);
    assert_eq!(lines[0].text, "jmp 0x0000000000002000");
}

#[test]
fn disassemble_wraps_addresses() {
    let lines = disassemble(&[0x90, 0x90, 0x90], u64::MAX - 1);
    let ips: Vec<u64> = lines.iter().map(|l| l.ip).collect();
    assert_eq!(ips, vec![u64::MAX - 1, u64::MAX, 0]);
}
