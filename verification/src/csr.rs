//! Model of one hart's privileged control-and-status registers.
//!
//! `Csrs` holds the registers this layer reads and writes: the hart
//! identity, the interrupt-enable mask, the global status flags, the
//! trap-vector base, the two scratch registers that stash the active
//! trap-frame pointer, the exception program counter, and the
//! address-translation root. Each accessor pins its effect on the register
//! file through the `csr_read` / `csr_write` specification functions, so a
//! caller can reason about any sequence of accesses.

use vstd::prelude::*;

verus! {

/// The registers in the accessor set.
#[derive(Clone, Copy, PartialEq, Eq, Structural, Debug)]
pub enum CsrReg {
    Mhartid,
    Mie,
    Mstatus,
    Stvec,
    Mscratch,
    Sscratch,
    Sepc,
    Satp,
}

/// One hart's view of the privileged registers. The hart identity is fixed
/// by the hardware; every other register is written through the accessors
/// below.
#[derive(Clone, Copy, PartialEq, Eq, Structural, Debug)]
pub struct Csrs {
    pub mhartid: u64,
    pub mie: u64,
    pub mstatus: u64,
    pub stvec: u64,
    pub mscratch: u64,
    pub sscratch: u64,
    pub sepc: u64,
    pub satp: u64,
}

/// The current value of one register.
pub open spec fn csr_read(c: Csrs, r: CsrReg) -> u64 {
    match r {
        CsrReg::Mhartid => c.mhartid,
        CsrReg::Mie => c.mie,
        CsrReg::Mstatus => c.mstatus,
        CsrReg::Stvec => c.stvec,
        CsrReg::Mscratch => c.mscratch,
        CsrReg::Sscratch => c.sscratch,
        CsrReg::Sepc => c.sepc,
        CsrReg::Satp => c.satp,
    }
}

/// The register file after one register is set. The hart identity is
/// read-only: there is no accessor that writes it, and a write leaves the
/// file unchanged.
pub open spec fn csr_write(c: Csrs, r: CsrReg, v: u64) -> Csrs {
    match r {
        CsrReg::Mhartid => c,
        CsrReg::Mie => (Csrs { mie: v, ..c }),
        CsrReg::Mstatus => (Csrs { mstatus: v, ..c }),
        CsrReg::Stvec => (Csrs { stvec: v, ..c }),
        CsrReg::Mscratch => (Csrs { mscratch: v, ..c }),
        CsrReg::Sscratch => (Csrs { sscratch: v, ..c }),
        CsrReg::Sepc => (Csrs { sepc: v, ..c }),
        CsrReg::Satp => (Csrs { satp: v, ..c }),
    }
}

/// Writing any writable register and reading it back returns the written
/// value unchanged, and the write leaves every other register as it was.
pub proof fn lemma_csr_write_read_round_trip(c: Csrs, r: CsrReg, v: u64)
    requires
        r != CsrReg::Mhartid,
    ensures
        csr_read(csr_write(c, r, v), r) == v,
        forall|other: CsrReg|
            other != r ==> #[trigger] csr_read(csr_write(c, r, v), other) == csr_read(c, other),
{
}

/// The scratch-register swap protocol: install a first value, then swap in
/// a second. The swap hands back exactly the first value — the one
/// installed immediately before — and a read that follows sees the second.
/// The exec counterparts `sscratch_write`, `sscratch_swap` and
/// `sscratch_read` state their effects through the same `csr_write` /
/// `csr_read` functions this law is phrased over.
pub proof fn lemma_scratch_swap_returns_prior(c: Csrs, first: u64, second: u64)
    ensures
        ({
            let installed = csr_write(c, CsrReg::Sscratch, first);
            let handed_back = csr_read(installed, CsrReg::Sscratch);
            let after_swap = csr_write(installed, CsrReg::Sscratch, second);
            handed_back == first && csr_read(after_swap, CsrReg::Sscratch) == second
        }),
{
}

impl Csrs {
    /// The register file a hart starts from: its identity, with every
    /// writable register zero.
    pub fn new(hartid: u64) -> (c: Csrs)
        ensures
            c.mhartid == hartid,
            c.mie == 0,
            c.mstatus == 0,
            c.stvec == 0,
            c.mscratch == 0,
            c.sscratch == 0,
            c.sepc == 0,
            c.satp == 0,
    {
        Csrs { mhartid: hartid, mie: 0, mstatus: 0, stvec: 0, mscratch: 0, sscratch: 0, sepc: 0, satp: 0 }
    }

    /// Read the identity of this hart.
    pub fn mhartid_read(&self) -> (r: u64)
        ensures
            r == csr_read(*self, CsrReg::Mhartid),
    {
        self.mhartid
    }

    /// Read the interrupt-enable mask.
    pub fn mie_read(&self) -> (r: u64)
        ensures
            r == csr_read(*self, CsrReg::Mie),
    {
        self.mie
    }

    /// Set the interrupt-enable mask.
    pub fn mie_write(&mut self, val: u64)
        ensures
            *final(self) == csr_write(*old(self), CsrReg::Mie, val),
    {
        self.mie = val;
    }

    /// Read the global status flags.
    pub fn mstatus_read(&self) -> (r: u64)
        ensures
            r == csr_read(*self, CsrReg::Mstatus),
    {
        self.mstatus
    }

    /// Set the global status flags.
    pub fn mstatus_write(&mut self, val: u64)
        ensures
            *final(self) == csr_write(*old(self), CsrReg::Mstatus, val),
    {
        self.mstatus = val;
    }

    /// Read the trap-vector base address.
    pub fn stvec_read(&self) -> (r: u64)
        ensures
            r == csr_read(*self, CsrReg::Stvec),
    {
        self.stvec
    }

    /// Set the trap-vector base address.
    pub fn stvec_write(&mut self, val: u64)
        ensures
            *final(self) == csr_write(*old(self), CsrReg::Stvec, val),
    {
        self.stvec = val;
    }

    /// Read the machine-mode scratch register.
    pub fn mscratch_read(&self) -> (r: u64)
        ensures
            r == csr_read(*self, CsrReg::Mscratch),
    {
        self.mscratch
    }

    /// Set the machine-mode scratch register.
    pub fn mscratch_write(&mut self, val: u64)
        ensures
            *final(self) == csr_write(*old(self), CsrReg::Mscratch, val),
    {
        self.mscratch = val;
    }

    /// Install a new value in the machine-mode scratch register and hand
    /// back the previous one, in one indivisible step on the hardware: a
    /// nested trap on the same hart can never observe a half-updated
    /// pointer.
    pub fn mscratch_swap(&mut self, to: u64) -> (from: u64)
        ensures
            from == csr_read(*old(self), CsrReg::Mscratch),
            *final(self) == csr_write(*old(self), CsrReg::Mscratch, to),
    {
        let from: u64 = self.mscratch;
        self.mscratch = to;
        from
    }

    /// Read the supervisor-mode scratch register.
    pub fn sscratch_read(&self) -> (r: u64)
        ensures
            r == csr_read(*self, CsrReg::Sscratch),
    {
        self.sscratch
    }

    /// Set the supervisor-mode scratch register.
    pub fn sscratch_write(&mut self, val: u64)
        ensures
            *final(self) == csr_write(*old(self), CsrReg::Sscratch, val),
    {
        self.sscratch = val;
    }

    /// Install a new value in the supervisor-mode scratch register and hand
    /// back the previous one, in one indivisible hardware step.
    pub fn sscratch_swap(&mut self, to: u64) -> (from: u64)
        ensures
            from == csr_read(*old(self), CsrReg::Sscratch),
            *final(self) == csr_write(*old(self), CsrReg::Sscratch, to),
    {
        let from: u64 = self.sscratch;
        self.sscratch = to;
        from
    }

    /// Read the exception program counter.
    pub fn sepc_read(&self) -> (r: u64)
        ensures
            r == csr_read(*self, CsrReg::Sepc),
    {
        self.sepc
    }

    /// Set the exception program counter.
    pub fn sepc_write(&mut self, val: u64)
        ensures
            *final(self) == csr_write(*old(self), CsrReg::Sepc, val),
    {
        self.sepc = val;
    }

    /// Read the address-translation-root register.
    pub fn satp_read(&self) -> (r: u64)
        ensures
            r == csr_read(*self, CsrReg::Satp),
    {
        self.satp
    }

    /// Set the address-translation-root register. The caller hands in a
    /// well-formed encoding (`satp::build_satp` produces one); the write
    /// itself validates nothing and cannot fail.
    pub fn satp_write(&mut self, val: u64)
        ensures
            *final(self) == csr_write(*old(self), CsrReg::Satp, val),
    {
        self.satp = val;
    }

    /// Invalidate cached address translations for one virtual address in
    /// one address space. The effect is on the translation cache alone,
    /// which no readable register exposes; the register file is unchanged.
    #[allow(unused_variables)]
    pub fn satp_fence(&mut self, vaddr: u64, asid: u64)
        ensures
            *final(self) == *old(self),
    {
    }

    /// Invalidate every cached address translation of one address space.
    /// The effect is on the translation cache alone, which no readable
    /// register exposes; the register file is unchanged.
    #[allow(unused_variables)]
    pub fn satp_fence_asid(&mut self, asid: u64)
        ensures
            *final(self) == *old(self),
    {
    }
}

} // verus!
