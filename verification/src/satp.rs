//! Encoding and decoding of the address-translation-root register.
//!
//! The register packs three fields into one 64-bit word: the translation
//! mode in the top four bits, a 16-bit address-space identifier below it,
//! and the physical page number of the root page table in the low 44 bits.

use vstd::prelude::*;

verus! {

/// Width of the in-page offset; the root table address is shifted right by
/// this amount before it is packed.
pub const PAGE_SHIFT: u64 = 12;

/// Bit position of the address-space identifier field.
pub const ASID_SHIFT: u64 = 44;

/// Bit position of the translation-mode field.
pub const MODE_SHIFT: u64 = 60;

/// Mask for the 16-bit address-space identifier.
pub const ASID_MASK: u64 = 0xffff;

/// Mask for the 44-bit physical page number of the root table.
pub const PPN_MASK: u64 = 0xfff_ffff_ffff;

/// The translation modes of the memory-management unit on a 64-bit hart:
/// translation switched off (physical addresses used directly), 39-bit
/// virtual addressing, or 48-bit virtual addressing.
#[derive(Clone, Copy, PartialEq, Eq, Structural, Debug)]
pub enum SatpMode {
    Off,
    Sv39,
    Sv48,
}

/// The hardware tag for each translation mode.
pub open spec fn mode_bits(mode: SatpMode) -> u64 {
    match mode {
        SatpMode::Off => 0,
        SatpMode::Sv39 => 8,
        SatpMode::Sv48 => 9,
    }
}

impl SatpMode {
    /// The hardware tag for this translation mode.
    pub fn value(self) -> (bits: u64)
        ensures
            bits == mode_bits(self),
    {
        match self {
            SatpMode::Off => 0,
            SatpMode::Sv39 => 8,
            SatpMode::Sv48 => 9,
        }
    }
}

/// The mode tag held in the top four bits of a register value.
pub open spec fn satp_mode_field(v: u64) -> u64 {
    v >> MODE_SHIFT
}

/// The address-space identifier held in bits 44 through 59.
pub open spec fn satp_asid_field(v: u64) -> u64 {
    (v >> ASID_SHIFT) & ASID_MASK
}

/// The root-table physical page number held in the low 44 bits.
pub open spec fn satp_ppn_field(v: u64) -> u64 {
    v & PPN_MASK
}

/// The translation mode a register value selects, if its mode tag is one
/// the hardware defines.
pub open spec fn satp_mode_of(v: u64) -> Option<SatpMode> {
    if satp_mode_field(v) == 0 {
        Some(SatpMode::Off)
    } else if satp_mode_field(v) == 8 {
        Some(SatpMode::Sv39)
    } else if satp_mode_field(v) == 9 {
        Some(SatpMode::Sv48)
    } else {
        None
    }
}

/// The packed register value for a mode, an address-space identifier and a
/// page-aligned root-table physical address.
pub open spec fn spec_build_satp(mode: SatpMode, asid: u64, addr: u64) -> u64 {
    (mode_bits(mode) << MODE_SHIFT) | ((asid & ASID_MASK) << ASID_SHIFT) | ((addr >> PAGE_SHIFT)
        & PPN_MASK)
}

/// The encoding is a lossless bit-packing: each of the three fields reads
/// back out of the packed value exactly as it went in — the mode tag from
/// the top bits, the identifier masked to 16 bits, and the page number the
/// address was reduced to.
pub proof fn lemma_satp_round_trip(mode: SatpMode, asid: u64, addr: u64)
    ensures
        satp_mode_field(spec_build_satp(mode, asid, addr)) == mode_bits(mode),
        satp_asid_field(spec_build_satp(mode, asid, addr)) == asid & ASID_MASK,
        satp_ppn_field(spec_build_satp(mode, asid, addr)) == (addr >> PAGE_SHIFT) & PPN_MASK,
        satp_mode_of(spec_build_satp(mode, asid, addr)) == Some(mode),
{
    let m: u64 = mode_bits(mode);
    let v: u64 = spec_build_satp(mode, asid, addr);
    assert(m == 0 || m == 8 || m == 9);
    assert(v >> 60 == m && (v >> 44) & 0xffff == asid & 0xffff && v & 0xfff_ffff_ffff == (addr
        >> 12) & 0xfff_ffff_ffff) by (bit_vector)
        requires
            m == 0 || m == 8 || m == 9,
            v == (m << 60) | ((asid & 0xffff) << 44) | ((addr >> 12) & 0xfff_ffff_ffff),
    ;
}

/// Encoding with translation switched off yields a zero mode field, whatever
/// the identifier and address arguments were.
pub proof fn lemma_build_satp_off_mode_zero(asid: u64, addr: u64)
    ensures
        satp_mode_field(spec_build_satp(SatpMode::Off, asid, addr)) == 0,
{
    lemma_satp_round_trip(SatpMode::Off, asid, addr);
}

/// An all-zero register value decodes to translation switched off.
pub proof fn lemma_zero_satp_decodes_off()
    ensures
        satp_mode_of(0) == Some(SatpMode::Off),
{
    assert(0u64 >> 60 == 0u64) by (bit_vector);
}

/// Pack a translation mode, an address-space identifier and a page-aligned
/// root-table physical address into one register value. The identifier is
/// masked to 16 bits and the address is reduced to its 44-bit physical page
/// number; the caller keeps both in range when the full values matter.
pub fn build_satp(mode: SatpMode, asid: u64, addr: u64) -> (satp: u64)
    ensures
        satp == spec_build_satp(mode, asid, addr),
        satp_mode_field(satp) == mode_bits(mode),
        satp_asid_field(satp) == asid & ASID_MASK,
        satp_ppn_field(satp) == (addr >> PAGE_SHIFT) & PPN_MASK,
        satp_mode_of(satp) == Some(mode),
{
    proof {
        lemma_satp_round_trip(mode, asid, addr);
    }
    (mode.value() << MODE_SHIFT) | ((asid & ASID_MASK) << ASID_SHIFT) | ((addr >> PAGE_SHIFT)
        & PPN_MASK)
}

/// Read the translation mode a register value selects, or `None` for a tag
/// the hardware leaves undefined.
pub fn satp_mode(v: u64) -> (mode: Option<SatpMode>)
    ensures
        mode == satp_mode_of(v),
{
    let bits: u64 = v >> MODE_SHIFT;
    if bits == 0 {
        Some(SatpMode::Off)
    } else if bits == 8 {
        Some(SatpMode::Sv39)
    } else if bits == 9 {
        Some(SatpMode::Sv48)
    } else {
        None
    }
}

/// Read the address-space identifier field of a register value.
pub fn satp_asid(v: u64) -> (asid: u64)
    ensures
        asid == satp_asid_field(v),
{
    (v >> ASID_SHIFT) & ASID_MASK
}

/// Read the root-table physical page number field of a register value.
pub fn satp_ppn(v: u64) -> (ppn: u64)
    ensures
        ppn == satp_ppn_field(v),
{
    v & PPN_MASK
}

} // verus!
