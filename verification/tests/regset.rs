use gameboy::regset::{GBRegisterSet, Part, Reg};

const SLOTS: [(Reg, Reg, Reg); 4] = [
    (Reg::AF, Reg::A, Reg::F),
    (Reg::BC, Reg::B, Reg::C),
    (Reg::DE, Reg::D, Reg::E),
    (Reg::HL, Reg::H, Reg::L),
];

#[test]
fn new_register_set_is_zeroed() {
    let regs = GBRegisterSet::new();
    for (slot, high, low) in SLOTS {
        assert_eq!(regs.get(slot), 0);
        assert_eq!(regs.get(high), 0);
        assert_eq!(regs.get(low), 0);
    }
}

#[test]
fn slot_write_is_read_back_in_halves() {
    let mut regs = GBRegisterSet::new();
    regs.put(Reg::BC, 0x1234);
    assert_eq!(regs.get(Reg::BC), 0x1234);
    assert_eq!(regs.get(Reg::B), 0x12);
    assert_eq!(regs.get(Reg::C), 0x34);
}

#[test]
fn high_write_keeps_the_low_half() {
    for (slot, high, low) in SLOTS {
        for v in 0..=255u16 {
            let mut regs = GBRegisterSet::new();
            regs.put(slot, 0xAB5C);
            regs.put(high, v);
            assert_eq!(regs.get(low), 0x5C);
            assert_eq!(regs.get(high), v);
            assert_eq!(regs.get(slot), (v << 8) | 0x5C);
        }
    }
}

#[test]
fn low_write_keeps_the_high_half() {
    for (slot, high, low) in SLOTS {
        for v in 0..=255u16 {
            let mut regs = GBRegisterSet::new();
            regs.put(slot, 0xAB5C);
            regs.put(low, v);
            assert_eq!(regs.get(high), 0xAB);
            assert_eq!(regs.get(low), v);
            assert_eq!(regs.get(slot), 0xAB00 | v);
        }
    }
}

#[test]
fn half_write_takes_the_low_eight_bits_of_the_value() {
    let mut regs = GBRegisterSet::new();
    regs.put(Reg::HL, 0x1122);
    regs.put(Reg::L, 0x1FF);
    assert_eq!(regs.get(Reg::HL), 0x11FF);
    regs.put(Reg::H, 0xABCD);
    assert_eq!(regs.get(Reg::HL), 0xCDFF);
}

#[test]
fn write_to_one_slot_leaves_the_others() {
    let mut regs = GBRegisterSet::new();
    regs.put(Reg::AF, 0x1111);
    regs.put(Reg::BC, 0x2222);
    regs.put(Reg::DE, 0x3333);
    regs.put(Reg::HL, 0x4444);
    regs.put(Reg::D, 0x99);
    assert_eq!(regs.get(Reg::AF), 0x1111);
    assert_eq!(regs.get(Reg::BC), 0x2222);
    assert_eq!(regs.get(Reg::DE), 0x9933);
    assert_eq!(regs.get(Reg::HL), 0x4444);
}

#[test]
fn inc_and_dec_wrap_a_slot_at_sixteen_bits() {
    let mut regs = GBRegisterSet::new();
    regs.put(Reg::HL, 0xFFFF);
    regs.inc(Reg::HL);
    assert_eq!(regs.get(Reg::HL), 0x0000);
    regs.dec(Reg::HL);
    assert_eq!(regs.get(Reg::HL), 0xFFFF);
    regs.put(Reg::DE, 0x00FF);
    regs.inc(Reg::DE);
    assert_eq!(regs.get(Reg::DE), 0x0100);
}

#[test]
fn inc_and_dec_of_a_half_wrap_within_the_half() {
    let mut regs = GBRegisterSet::new();
    regs.put(Reg::BC, 0x12FF);
    regs.inc(Reg::C);
    assert_eq!(regs.get(Reg::BC), 0x1200);
    regs.dec(Reg::C);
    assert_eq!(regs.get(Reg::BC), 0x12FF);
    regs.put(Reg::BC, 0x0034);
    regs.dec(Reg::B);
    assert_eq!(regs.get(Reg::BC), 0xFF34);
    regs.inc(Reg::B);
    assert_eq!(regs.get(Reg::BC), 0x0034);
}

#[test]
fn origin_names_slot_and_part() {
    assert_eq!(Reg::A.origin(), (Reg::AF, Part::High));
    assert_eq!(Reg::F.origin(), (Reg::AF, Part::Low));
    assert_eq!(Reg::E.origin(), (Reg::DE, Part::Low));
    assert_eq!(Reg::HL.origin(), (Reg::HL, Part::Whole));
    assert!(Reg::BC.wide());
    assert!(!Reg::B.wide());
}
