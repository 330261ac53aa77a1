use riscv_cpu::csr::Csrs;

#[test]
fn new_hart_starts_with_identity_and_zeroed_registers() {
    let c = Csrs::new(5);
    assert_eq!(c.mhartid_read(), 5);
    assert_eq!(c.mie_read(), 0);
    assert_eq!(c.mstatus_read(), 0);
    assert_eq!(c.stvec_read(), 0);
    assert_eq!(c.mscratch_read(), 0);
    assert_eq!(c.sscratch_read(), 0);
    assert_eq!(c.sepc_read(), 0);
    assert_eq!(c.satp_read(), 0);
}

#[test]
fn write_then_read_round_trips_every_register() {
    let mut c = Csrs::new(0);
    c.mie_write(0x0000_0aaa);
    c.mstatus_write(0x0000_1888);
    c.stvec_write(0x8000_4000);
    c.mscratch_write(0x8020_0000);
    c.sscratch_write(0x8020_0218);
    c.sepc_write(0x8000_1234);
    c.satp_write(0x8000_0000_0008_0000);
    assert_eq!(c.mie_read(), 0x0000_0aaa);
    assert_eq!(c.mstatus_read(), 0x0000_1888);
    assert_eq!(c.stvec_read(), 0x8000_4000);
    assert_eq!(c.mscratch_read(), 0x8020_0000);
    assert_eq!(c.sscratch_read(), 0x8020_0218);
    assert_eq!(c.sepc_read(), 0x8000_1234);
    assert_eq!(c.satp_read(), 0x8000_0000_0008_0000);
}

#[test]
fn writes_leave_the_other_registers_alone() {
    let mut c = Csrs::new(2);
    c.mie_write(0x888);
    c.sepc_write(0x8000_0042);
    assert_eq!(c.mhartid_read(), 2);
    assert_eq!(c.mstatus_read(), 0);
    assert_eq!(c.mie_read(), 0x888);
    assert_eq!(c.sepc_read(), 0x8000_0042);
}

#[test]
fn mscratch_swap_returns_prior_and_installs_new() {
    let mut c = Csrs::new(0);
    c.mscratch_write(0xaaaa_0001);
    let prior = c.mscratch_swap(0xbbbb_0002);
    assert_eq!(prior, 0xaaaa_0001);
    assert_eq!(c.mscratch_read(), 0xbbbb_0002);
}

#[test]
fn sscratch_swap_returns_prior_and_installs_new() {
    let mut c = Csrs::new(0);
    c.sscratch_write(0x8020_0000);
    let prior = c.sscratch_swap(0x8020_0218);
    assert_eq!(prior, 0x8020_0000);
    assert_eq!(c.sscratch_read(), 0x8020_0218);
}

#[test]
fn swap_on_one_scratch_register_leaves_the_other() {
    let mut c = Csrs::new(0);
    c.mscratch_write(0x1111);
    c.sscratch_write(0x2222);
    let prior = c.sscratch_swap(0x3333);
    assert_eq!(prior, 0x2222);
    assert_eq!(c.mscratch_read(), 0x1111);
}

#[test]
fn fences_leave_the_register_file_unchanged() {
    let mut c = Csrs::new(1);
    c.satp_write(0x8000_0000_0008_0000);
    c.stvec_write(0x8000_4000);
    c.satp_fence(0x4000_0000, 7);
    c.satp_fence_asid(7);
    assert_eq!(c.satp_read(), 0x8000_0000_0008_0000);
    assert_eq!(c.stvec_read(), 0x8000_4000);
    assert_eq!(c.mhartid_read(), 1);
}
