use riscv_cpu::csr::Csrs;
use riscv_cpu::frame::TrapFrame;
use riscv_cpu::frame::TrapFrameStore;
use riscv_cpu::frame::HART_COUNT;
use riscv_cpu::frame::TRAP_FRAME_BYTES;
use riscv_cpu::satp::satp_mode;
use riscv_cpu::satp::SatpMode;

#[test]
fn zero_frame_has_every_slot_zero() {
    let f = TrapFrame::zero();
    assert!(f.regs.iter().all(|r| *r == 0));
    assert!(f.fregs.iter().all(|r| *r == 0));
    assert_eq!(f.satp, 0);
    assert_eq!(f.trap_stack, 0);
    assert_eq!(f.hartid, 0);
}

#[test]
fn initialize_zeroes_every_frame_and_translation_is_off() {
    let store = TrapFrameStore::initialize(0x8020_0000);
    assert_eq!(store.frames.len(), HART_COUNT);
    for f in &store.frames {
        assert!(f.regs.iter().all(|r| *r == 0));
        assert!(f.fregs.iter().all(|r| *r == 0));
        assert_eq!(f.satp, 0);
        assert_eq!(satp_mode(f.satp), Some(SatpMode::Off));
        assert_eq!(f.trap_stack, 0);
        assert_eq!(f.hartid, 0);
    }
}

#[test]
fn frame_addresses_follow_the_fixed_layout() {
    let store = TrapFrameStore::initialize(0x8020_0000);
    assert_eq!(store.frame_address(0), 0x8020_0000);
    assert_eq!(store.frame_address(1), 0x8020_0000 + TRAP_FRAME_BYTES);
    assert_eq!(store.frame_address(7), 0x8020_0000 + 7 * TRAP_FRAME_BYTES);
}

#[test]
fn bind_installs_the_frame_address_in_the_scratch_register() {
    let mut store = TrapFrameStore::initialize(0x8040_0000);
    let mut csrs = Csrs::new(0);
    store.bind(&mut csrs, 0, 0x8000_f000);
    assert_eq!(csrs.mscratch_read(), store.frame_address(0));
}

#[test]
fn scenario_bind_hart_three() {
    let base: u64 = 0x8020_0000;
    let mut store = TrapFrameStore::initialize(base);
    let mut csrs = Csrs::new(3);
    store.bind(&mut csrs, 3, 0x8010_0000);
    assert_eq!(csrs.mscratch_read(), store.frame_address(3));
    assert_eq!(csrs.mscratch_read(), base + 3 * TRAP_FRAME_BYTES);
    assert_eq!(store.frames[3].trap_stack, 0x8010_0000);
    assert_eq!(store.frames[3].hartid, 3);
}

#[test]
fn bind_touches_only_the_bound_frame() {
    let mut store = TrapFrameStore::initialize(0x8020_0000);
    let mut csrs = Csrs::new(0);
    store.bind(&mut csrs, 2, 0x8011_0000);
    for (i, f) in store.frames.iter().enumerate() {
        if i == 2 {
            assert_eq!(f.trap_stack, 0x8011_0000);
            assert_eq!(f.hartid, 2);
        } else {
            assert_eq!(f.trap_stack, 0);
            assert_eq!(f.hartid, 0);
        }
        assert!(f.regs.iter().all(|r| *r == 0));
        assert_eq!(f.satp, 0);
    }
}

#[test]
fn binding_two_harts_keeps_both_records() {
    let mut store = TrapFrameStore::initialize(0x8020_0000);
    let mut csrs = Csrs::new(0);
    store.bind(&mut csrs, 0, 0x8010_0000);
    store.bind(&mut csrs, 1, 0x8010_8000);
    assert_eq!(store.frames[0].trap_stack, 0x8010_0000);
    assert_eq!(store.frames[0].hartid, 0);
    assert_eq!(store.frames[1].trap_stack, 0x8010_8000);
    assert_eq!(store.frames[1].hartid, 1);
    assert_eq!(csrs.mscratch_read(), store.frame_address(1));
}
