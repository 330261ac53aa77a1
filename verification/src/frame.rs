//! The per-hart trap frames and the store that holds them.
//!
//! A trap frame captures the full execution context of one hart — its 32
//! general registers, 32 floating-point register slots, active
//! address-translation root, trap stack pointer, and identity — so a trap
//! handler can save, inspect and restore state across an interrupt or
//! context switch. The field order and sizes are a binary-compatibility
//! contract with the hand-written trap-entry stub, which addresses them by
//! byte offset; `TRAP_FRAME_BYTES` and `TrapFrameStore::spec_frame_address`
//! carry that layout into the addresses the scratch registers hold.

use vstd::prelude::*;

use crate::csr::Csrs;
use crate::csr::CsrReg;
use crate::csr::csr_read;
use crate::csr::csr_write;
use crate::satp::SatpMode;
use crate::satp::satp_mode_of;
use crate::satp::lemma_zero_satp_decodes_off;

verus! {

/// Number of harts the store holds a frame for, fixed at build time.
pub const HART_COUNT: usize = 8;

/// Byte size of one trap frame: 32 general-register slots and 32
/// floating-point slots of 8 bytes each, then the translation root, the
/// trap stack pointer and the hart identity at one word apiece.
pub const TRAP_FRAME_BYTES: u64 = 536;

/// The saved execution context of one hart. Every slot is a 64-bit machine
/// word; `trap_stack` is the address of an externally owned stack region,
/// never an allocation of this layer's own.
#[derive(Clone, Copy)]
pub struct TrapFrame {
    pub regs: [u64; 32],
    pub fregs: [u64; 32],
    pub satp: u64,
    pub trap_stack: u64,
    pub hartid: u64,
}

/// Every slot of the frame is zero: register snapshots cleared, the
/// translation root meaning translation off, a null trap stack, and a
/// placeholder hart identity that binding overwrites.
pub open spec fn frame_zeroed(f: TrapFrame) -> bool {
    &&& forall|i: int| 0 <= i < 32 ==> f.regs@[i] == 0
    &&& forall|i: int| 0 <= i < 32 ==> f.fregs@[i] == 0
    &&& f.satp == 0
    &&& f.trap_stack == 0
    &&& f.hartid == 0
}

impl TrapFrame {
    /// A frame with every slot zero.
    pub fn zero() -> (f: TrapFrame)
        ensures
            frame_zeroed(f),
    {
        TrapFrame { regs: [0u64; 32], fregs: [0u64; 32], satp: 0, trap_stack: 0, hartid: 0 }
    }
}

/// The process-wide store of trap frames, one per hart, laid out
/// contiguously from `base` so that frame `i` sits at
/// `base + i * TRAP_FRAME_BYTES`. All frames exist for the whole run; only
/// their contents are ever overwritten.
pub struct TrapFrameStore {
    pub base: u64,
    pub frames: Vec<TrapFrame>,
}

impl TrapFrameStore {
    /// The store holds exactly one frame per hart, and every frame's
    /// address fits in the 64-bit address space.
    pub open spec fn wf(self) -> bool {
        &&& self.frames@.len() == HART_COUNT
        &&& self.base + HART_COUNT * TRAP_FRAME_BYTES <= u64::MAX
    }

    /// The address of hart `hart`'s frame within the store.
    pub open spec fn spec_frame_address(self, hart: int) -> u64 {
        (self.base + hart * TRAP_FRAME_BYTES) as u64
    }

    /// Zero every field of every frame. This runs exactly once, before any
    /// hart is released from its boot hold; `base` is the address the
    /// store's frames live at, supplied by the caller that placed them.
    pub fn initialize(base: u64) -> (store: TrapFrameStore)
        requires
            base + HART_COUNT * TRAP_FRAME_BYTES <= u64::MAX,
        ensures
            store.wf(),
            store.base == base,
            forall|i: int| 0 <= i < HART_COUNT ==> frame_zeroed(#[trigger] store.frames@[i]),
    {
        let mut frames: Vec<TrapFrame> = Vec::new();
        let mut i: usize = 0;
        while i < HART_COUNT
            invariant
                i <= HART_COUNT,
                frames@.len() == i,
                forall|j: int| 0 <= j < i ==> frame_zeroed(#[trigger] frames@[j]),
            decreases HART_COUNT - i,
        {
            frames.push(TrapFrame::zero());
            i = i + 1;
        }
        TrapFrameStore { base: base, frames: frames }
    }

    /// The address of hart `hart`'s frame: the value the scratch register
    /// holds once the hart is bound.
    pub fn frame_address(&self, hart: usize) -> (addr: u64)
        requires
            self.wf(),
            hart < HART_COUNT,
        ensures
            addr == self.spec_frame_address(hart as int),
    {
        self.base + (hart as u64) * TRAP_FRAME_BYTES
    }

    /// Bind hart `hart` to a trap stack: record the stack address and the
    /// hart's identity in its frame, and install the frame's address in the
    /// machine-mode scratch register so the trap-entry stub can find the
    /// frame. Every other field and every other frame is left as it was.
    pub fn bind(&mut self, csrs: &mut Csrs, hart: usize, trap_stack: u64)
        requires
            old(self).wf(),
            hart < HART_COUNT,
        ensures
            final(self).wf(),
            final(self).base == old(self).base,
            final(self).frames@[hart as int].trap_stack == trap_stack,
            final(self).frames@[hart as int].hartid == hart as u64,
            final(self).frames@[hart as int].regs == old(self).frames@[hart as int].regs,
            final(self).frames@[hart as int].fregs == old(self).frames@[hart as int].fregs,
            final(self).frames@[hart as int].satp == old(self).frames@[hart as int].satp,
            forall|j: int|
                0 <= j < HART_COUNT && j != hart ==> final(self).frames@[j] == old(
                    self,
                ).frames@[j],
            *final(csrs) == csr_write(
                *old(csrs),
                CsrReg::Mscratch,
                old(self).spec_frame_address(hart as int),
            ),
    {
        let addr: u64 = self.frame_address(hart);
        let mut f: TrapFrame = self.frames[hart];
        f.trap_stack = trap_stack;
        f.hartid = hart as u64;
        self.frames[hart] = f;
        csrs.mscratch_write(addr);
    }
}

/// Binding a hart installs its frame address in the machine-mode scratch
/// register, so a scratch read that follows — with no intervening write or
/// swap — returns exactly the installed address. `bind` states its effect
/// on the register file as the `csr_write` below, and `mscratch_read`
/// returns `csr_read` of the file it sees.
pub proof fn lemma_bind_then_scratch_read(c: Csrs, store: TrapFrameStore, hart: int)
    requires
        store.wf(),
        0 <= hart < HART_COUNT,
    ensures
        csr_read(
            csr_write(c, CsrReg::Mscratch, store.spec_frame_address(hart)),
            CsrReg::Mscratch,
        ) == store.spec_frame_address(hart),
{
}

/// Every frame of a freshly initialized store decodes its translation root
/// to translation switched off: the root is zero, and a zero register value
/// selects the off mode.
pub proof fn lemma_initialized_frames_translation_off(store: TrapFrameStore)
    requires
        store.wf(),
        forall|i: int| 0 <= i < HART_COUNT ==> frame_zeroed(#[trigger] store.frames@[i]),
    ensures
        forall|i: int|
            0 <= i < HART_COUNT ==> satp_mode_of(#[trigger] store.frames@[i].satp) == Some(
                SatpMode::Off,
            ),
{
    lemma_zero_satp_decodes_off();
}

} // verus!
