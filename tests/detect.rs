use audiospeedhack::utils::System;

fn put16(b: &mut [u8], at: usize, v: u16) {
    b[at..at + 2].copy_from_slice(&v.to_le_bytes());
}

fn put32(b: &mut [u8], at: usize, v: u32) {
    b[at..at + 4].copy_from_slice(&v.to_le_bytes());
}

/// A PE image with headers only: no sections and no data directories.
fn minimal_pe(pe32_plus: bool) -> Vec<u8> {
    let mut b = vec![0u8; 0x200];
    b[0] = b'M';
    b[1] = b'Z';
    put32(&mut b, 0x3c, 0x40);
    b[0x40..0x44].copy_from_slice(b"PE\0\0");
    let coff = 0x44;
    let optional_size: u16 = if pe32_plus { 112 } else { 96 };
    put16(&mut b, coff, if pe32_plus { 0x8664 } else { 0x14c });
    put16(&mut b, coff + 2, 0);
    put16(&mut b, coff + 16, optional_size);
    put16(&mut b, coff + 18, 0x0022);
    let opt = coff + 20;
    put16(&mut b, opt, if pe32_plus { 0x20b } else { 0x10b });
    let windows = if pe32_plus { opt + 24 } else { opt + 28 };
    let after_base = if pe32_plus { windows + 8 } else { windows + 4 };
    put32(&mut b, after_base, 0x1000);
    put32(&mut b, after_base + 4, 0x200);
    put16(&mut b, after_base + 8, 6);
    put16(&mut b, after_base + 16, 6);
    put32(&mut b, after_base + 24, 0x1000);
    put32(&mut b, after_base + 28, 0x200);
    put16(&mut b, after_base + 36, 3);
    b
}

#[test]
fn detect_reads_a_64_bit_image() {
    assert_eq!(System::detect(&minimal_pe(true)), Ok(System::X64));
}

#[test]
fn detect_reads_a_32_bit_image() {
    assert_eq!(System::detect(&minimal_pe(false)), Ok(System::X86));
}
