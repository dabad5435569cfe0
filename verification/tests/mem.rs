use gameboy::mem::{GBMem, MEM_SIZE};

#[test]
fn new_memory_is_64k_of_zeroes() {
    let mem = GBMem::new();
    assert_eq!(MEM_SIZE, 65536);
    assert_eq!(mem.get(0), 0);
    assert_eq!(mem.get(0x8000), 0);
    assert_eq!(mem.get(0xFFFF), 0);
}

#[test]
fn put_changes_one_byte() {
    let mut mem = GBMem::new();
    mem.put(0x1234, 0xAB);
    mem.put(0xFFFF, 0x01);
    assert_eq!(mem.get(0x1234), 0xAB);
    assert_eq!(mem.get(0x1233), 0);
    assert_eq!(mem.get(0x1235), 0);
    assert_eq!(mem.get(0xFFFF), 0x01);
    mem.put(0x1234, 0xCD);
    assert_eq!(mem.get(0x1234), 0xCD);
}
