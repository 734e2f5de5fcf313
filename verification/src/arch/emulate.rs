//! An architecture without translation hardware of its own: everything it
//! does, it does to the [`Machine`] it is given.
use crate::arch::{lemma_derivation, page_number, Arch};
use crate::machine::Machine;
use crate::{MemoryArea, PhysicalAddress, VirtualAddress};
use vstd::arithmetic::power2::lemma2_to64;
use vstd::bits::lemma_u64_shr_is_div;
use vstd::prelude::*;

verus! {

/// The emulated architecture: pages of 4 KiB, tables of 512 entries of eight
/// bytes, four levels.
///
/// Its root register holds the address that was written, and reads it back
/// page aligned. It drops the cached translation of a single page, and it
/// reports the whole memory of the machine as one usable area.
#[derive(Clone, Copy)]
pub struct EmulateArch;

impl Arch for EmulateArch {
    const PAGE_SHIFT: u64 = 12;

    const PAGE_ENTRY_SHIFT: u64 = 9;

    const PAGE_LEVELS: u64 = 4;

    const PAGE_OFFSET: u64 = 0xffff800000000000;

    const ENTRY_ADDRESS_SHIFT: u64 = 52;

    const ENTRY_FLAG_PRESENT: u64 = 1 << 0;

    const ENTRY_FLAG_WRITABLE: u64 = 1 << 1;

    const ENTRY_FLAG_USER: u64 = 1 << 2;

    const ENTRY_FLAG_HUGE: u64 = 1 << 7;

    const ENTRY_FLAG_GLOBAL: u64 = 1 << 8;

    const ENTRY_FLAG_NO_EXEC: u64 = 1 << 63;

    open spec fn table_of_register(register: u64) -> u64 {
        (register - register % 0x1000) as u64
    }

    open spec fn register_of_table(address: u64) -> u64 {
        address
    }

    open spec fn fits_register(address: u64) -> bool {
        true
    }

    open spec fn spec_init(machine: Machine) -> Option<Seq<MemoryArea>> {
        if machine.memory().len() == 0 {
            Some(Seq::empty())
        } else {
            Some(
                seq![
                    (MemoryArea {
                        base: PhysicalAddress::new(0),
                        size: machine.memory().len() as u64,
                    }),
                ],
            )
        }
    }

    proof fn lemma_geometry() {
        lemma_derivation(12, 9, 4, 52);
    }

    proof fn lemma_table_of_register(register: u64) {
        Self::lemma_geometry();
        lemma2_to64();
        assert(Self::PAGE_SIZE == 0x1000);
        assert(Self::table_of_register(register) == register - register % 0x1000);
        assert(Self::fits_register(Self::table_of_register(register)));
    }

    proof fn lemma_table_round_trip(address: u64) {
        Self::lemma_geometry();
        lemma2_to64();
        assert(Self::PAGE_SIZE == 0x1000);
        assert(Self::register_of_table(address) == address);
        assert(Self::table_of_register(address) == address - address % 0x1000);
    }

    fn init(machine: &Machine) -> (areas: Option<Vec<MemoryArea>>) {
        let size = machine.memory_size();
        let mut found: Vec<MemoryArea> = Vec::new();
        if size != 0 {
            found.push(MemoryArea { base: PhysicalAddress::new(0), size: size as u64 });
        }
        Some(found)
    }

    fn invalidate(machine: &mut Machine, address: VirtualAddress)
        ensures
            final(machine).cached() == old(machine).cached().remove(
                page_number(address, Self::PAGE_SIZE),
            ),
            final(machine).register() == old(machine).register(),
    {
        proof {
            Self::lemma_geometry();
            lemma_u64_shr_is_div(address.data(), Self::PAGE_SHIFT);
        }
        machine.flush_translation(address.data() >> Self::PAGE_SHIFT);
    }

    fn table(machine: &Machine) -> (root: PhysicalAddress) {
        let register = machine.root_register();
        assert(register & !0xfffu64 == register - register % 0x1000) by (bit_vector);
        proof {
            Self::lemma_geometry();
            lemma2_to64();
        }
        PhysicalAddress::new(register & !Self::PAGE_OFFSET_MASK)
    }

    fn set_table(machine: &mut Machine, address: PhysicalAddress) {
        machine.set_root_register(address.data());
    }
}

} // verus!
