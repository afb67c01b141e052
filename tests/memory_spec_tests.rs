use rs_nes::memory::SimpleMemory;

#[test]
fn new_memory_is_zero() {
    let mem = SimpleMemory::new();
    assert_eq!(0, mem.read(0x0000));
    assert_eq!(0, mem.read(0xFFFF));
    assert_eq!(65536, mem.dump().len());
}

#[test]
fn words_are_little_endian_and_wrap() {
    let mut mem = SimpleMemory::new();
    mem.write(0x1000, 0x34);
    mem.write(0x1001, 0x12);
    assert_eq!(0x1234, mem.read16(0x1000));
    mem.write(0xFFFF, 0xCD);
    mem.write(0x0000, 0xAB);
    assert_eq!(0xABCD, mem.read16(0xFFFF));
}

#[test]
fn zero_page_word_wraps_in_page() {
    let mut mem = SimpleMemory::new();
    mem.write(0x00FF, 0x78);
    mem.write(0x0000, 0x56);
    mem.write(0x0100, 0x99);
    assert_eq!(0x5678, mem.read16_zp(0xFF));
}

#[test]
fn store_many_writes_consecutive_bytes() {
    let mut mem = SimpleMemory::new();
    mem.store_many(0xFFFD, &[1, 2, 3]);
    assert_eq!(1, mem.read(0xFFFD));
    assert_eq!(2, mem.read(0xFFFE));
    assert_eq!(3, mem.read(0xFFFF));
    assert_eq!(0, mem.read(0xFFFC));
    let dump = mem.dump();
    assert_eq!(&[0, 1, 2, 3], &dump[0xFFFC..]);
}

#[test]
fn hash_is_seahash_of_contents() {
    let mut mem = SimpleMemory::new();
    let before = mem.hash();
    assert_eq!(seahash::hash(&vec![0u8; 65536]), before);
    mem.write(0x1234, 0x56);
    let after = mem.hash();
    assert_ne!(before, after);
    assert_eq!(seahash::hash(&mem.dump()), after);
}
