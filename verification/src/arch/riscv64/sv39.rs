//! The three-level Sv39 translation scheme.
use crate::arch::{lemma_derivation, Arch};
use crate::machine::Machine;
use crate::{MemoryArea, PhysicalAddress, VirtualAddress};
use vstd::arithmetic::power2::{lemma2_to64, lemma2_to64_rest};
use vstd::prelude::*;

verus! {

/// Sv39: pages of 4 KiB, tables of 512 entries of eight bytes, three levels.
///
/// An entry has no bit that forbids execution: its execute bit grants it.
#[derive(Clone, Copy)]
pub struct RiscV64Sv39Arch;

impl RiscV64Sv39Arch {
    /// Flags of a leaf page by default: present and readable.
    pub const ENTRY_FLAG_DEFAULT_PAGE: u64 = Self::ENTRY_FLAG_PRESENT | 1 << 1;

    /// Flags of an intermediate table by default: present.
    pub const ENTRY_FLAG_DEFAULT_TABLE: u64 = Self::ENTRY_FLAG_PRESENT;

    /// Read-only is the absence of [`Self::ENTRY_FLAG_READWRITE`].
    pub const ENTRY_FLAG_READONLY: u64 = 0;

    pub const ENTRY_FLAG_READWRITE: u64 = 1 << 2;

    pub const ENTRY_FLAG_EXEC: u64 = 1 << 3;

    /// Virtual address at which the direct map of physical memory begins.
    pub const PHYS_OFFSET: u64 = 0xfffffe0000000000;

    /// The root table address in the raw value `satp` of the root register:
    /// the frame number in its low 44 bits, shifted back into an address.
    pub fn table_of_satp(satp: u64) -> (root: PhysicalAddress)
        ensures
            root.data() == Self::table_of_register(satp),
    {
        assert((satp & 0x0000_0FFF_FFFF_FFFF) << 12 == (satp % 0x1000_0000_0000) * 0x1000)
            by (bit_vector);
        PhysicalAddress::new((satp & 0x0000_0FFF_FFFF_FFFF) << Self::PAGE_SHIFT)
    }

    /// The raw value of the root register for the root table at `address`:
    /// the mode tag of the three-level scheme in the top four bits, the
    /// frame number of `address` below.
    pub fn satp_of_table(address: PhysicalAddress) -> (satp: u64)
        ensures
            satp == Self::register_of_table(address.data()),
    {
        let data = address.data();
        assert((8u64 << 60) | (data >> 12) == 0x8000_0000_0000_0000 + data / 0x1000)
            by (bit_vector);
        (8 << 60) | (data >> Self::PAGE_SHIFT)
    }

    /// The constants of the scheme, in figures.
    pub proof fn lemma_constants()
        ensures
            Self::PAGE_SIZE == 4096,
            Self::PAGE_OFFSET_MASK == 0xFFF,
            Self::PAGE_ADDRESS_SHIFT == 39,
            Self::PAGE_ADDRESS_SIZE == 0x0000_0080_0000_0000,
            Self::PAGE_ADDRESS_MASK == 0x0000_007F_FFFF_F000,
            Self::PAGE_ENTRY_SIZE == 8,
            Self::PAGE_ENTRIES == 512,
            Self::PAGE_ENTRY_MASK == 0x1FF,
            Self::PAGE_NEGATIVE_MASK == 0xFFFF_FF80_0000_0000,
            Self::ENTRY_ADDRESS_SIZE == 0x0010_0000_0000_0000,
            Self::ENTRY_ADDRESS_MASK == 0x000F_FFFF_FFFF_F000,
            Self::ENTRY_FLAGS_MASK == 0xFFF0_0000_0000_0FFF,
            Self::PAGE_OFFSET == 0xFFFF_FE00_0000_0000,
            Self::ENTRY_FLAG_PRESENT == 1,
            Self::ENTRY_FLAG_DEFAULT_PAGE == 3,
            Self::ENTRY_FLAG_DEFAULT_TABLE == 1,
            Self::ENTRY_FLAG_READWRITE == 4,
            Self::ENTRY_FLAG_WRITABLE == 4,
            Self::ENTRY_FLAG_EXEC == 8,
            Self::ENTRY_FLAG_USER == 16,
            Self::ENTRY_FLAG_NO_EXEC == 0,
    {
        Self::lemma_geometry();
        lemma2_to64();
        lemma2_to64_rest();
        assert(1u64 << 0 == 1 && 1u64 | 1u64 << 1 == 3 && 1u64 << 2 == 4 && 1u64 << 3 == 8 && 1u64
            << 4 == 16) by (bit_vector);
    }
}

impl Arch for RiscV64Sv39Arch {
    const PAGE_SHIFT: u64 = 12;

    const PAGE_ENTRY_SHIFT: u64 = 9;

    const PAGE_LEVELS: u64 = 3;

    const PAGE_OFFSET: u64 = Self::PHYS_OFFSET;

    const ENTRY_ADDRESS_SHIFT: u64 = 52;

    const ENTRY_FLAG_PRESENT: u64 = 1 << 0;

    const ENTRY_FLAG_WRITABLE: u64 = Self::ENTRY_FLAG_READWRITE;

    const ENTRY_FLAG_USER: u64 = 1 << 4;

    /// The scheme has no such bit: an entry with any permission is a leaf.
    const ENTRY_FLAG_HUGE: u64 = 0;

    /// Not used by this variant.
    const ENTRY_FLAG_GLOBAL: u64 = 0;

    /// The scheme has no such bit: execution is granted by
    /// [`RiscV64Sv39Arch::ENTRY_FLAG_EXEC`], not revoked.
    const ENTRY_FLAG_NO_EXEC: u64 = 0;

    open spec fn table_of_register(register: u64) -> u64 {
        ((register % 0x1000_0000_0000) * 0x1000) as u64
    }

    open spec fn register_of_table(address: u64) -> u64 {
        (0x8000_0000_0000_0000 + address / 0x1000) as u64
    }

    /// The frame number field of the register is 44 bits wide.
    open spec fn fits_register(address: u64) -> bool {
        address < 0x100_0000_0000_0000
    }

    open spec fn spec_init(machine: Machine) -> Option<Seq<MemoryArea>> {
        None
    }

    proof fn lemma_geometry() {
        lemma_derivation(12, 9, 3, 52);
    }

    proof fn lemma_table_of_register(register: u64) {
        Self::lemma_geometry();
        lemma2_to64();
        assert(Self::PAGE_SIZE == 0x1000);
        let frame = register % 0x1000_0000_0000;
        assert(frame * 0x1000 < 0x100_0000_0000_0000 && frame * 0x1000 % 0x1000 == 0)
            by (bit_vector)
            requires
                frame < 0x1000_0000_0000,
        ;
        assert(Self::table_of_register(register) == frame * 0x1000);
        assert(Self::fits_register((frame * 0x1000) as u64));
    }

    proof fn lemma_table_round_trip(address: u64) {
        Self::lemma_geometry();
        lemma2_to64();
        assert(Self::PAGE_SIZE == 0x1000);
        assert(Self::fits_register(address));
        let frame = address / 0x1000;
        assert(frame < 0x1000_0000_0000 && frame * 0x1000 == address - address % 0x1000 && (
        0x8000_0000_0000_0000 + frame) as u64 % 0x1000_0000_0000 == frame) by (bit_vector)
            requires
                address < 0x100_0000_0000_0000,
                frame == address / 0x1000,
        ;
        assert(Self::register_of_table(address) == 0x8000_0000_0000_0000 + frame);
        assert(Self::table_of_register((0x8000_0000_0000_0000 + frame) as u64) == frame
            * 0x1000);
    }

    /// This variant has no memory discovery. No machine meets the
    /// precondition, and that is meant: the operation is never to be called
    /// here.
    fn init(machine: &Machine) -> (areas: Option<Vec<MemoryArea>>) {
        None
    }

    /// The variant cannot select one translation: it drops them all.
    #[inline(always)]
    fn invalidate(machine: &mut Machine, address: VirtualAddress)
        ensures
            final(machine).cached() == Set::<u64>::empty(),
            final(machine).register() == Self::register_of_table(
                Self::table_of_register(old(machine).register()),
            ),
    {
        Self::invalidate_all(machine);
    }

    #[inline(always)]
    fn table(machine: &Machine) -> (root: PhysicalAddress) {
        Self::table_of_satp(machine.root_register())
    }

    #[inline(always)]
    fn set_table(machine: &mut Machine, address: PhysicalAddress) {
        machine.set_root_register(Self::satp_of_table(address));
    }
}

} // verus!
