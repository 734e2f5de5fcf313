use paging_hal::{Arch, Machine, PhysicalAddress, RiscV64Sv39Arch, VirtualAddress};

const DIRECT_MAP: u64 = 0xFFFF_FE00_0000_0000;

#[test]
fn satp_carries_mode_and_frame_number() {
    assert_eq!(
        RiscV64Sv39Arch::satp_of_table(PhysicalAddress::new(0x8020_0000)),
        0x8000_0000_0008_0200
    );
    assert_eq!(RiscV64Sv39Arch::satp_of_table(PhysicalAddress::new(0)), 0x8000_0000_0000_0000);
    assert_eq!(RiscV64Sv39Arch::satp_of_table(PhysicalAddress::new(0x1000)), 0x8000_0000_0000_0001);
}

#[test]
fn satp_takes_an_unaligned_address_as_it_is() {
    assert_eq!(RiscV64Sv39Arch::satp_of_table(PhysicalAddress::new(0x1FFF)), 0x8000_0000_0000_0001);
    assert_eq!(RiscV64Sv39Arch::satp_of_table(PhysicalAddress::new(0xFFF)), 0x8000_0000_0000_0000);
}

#[test]
fn satp_of_the_largest_address() {
    assert_eq!(
        RiscV64Sv39Arch::satp_of_table(PhysicalAddress::new(u64::MAX)),
        0x800F_FFFF_FFFF_FFFF
    );
}

#[test]
fn table_is_the_frame_number_field_shifted_back() {
    assert_eq!(RiscV64Sv39Arch::table_of_satp(0x8000_0000_0008_0200).data(), 0x8020_0000);
    assert_eq!(RiscV64Sv39Arch::table_of_satp(0).data(), 0);
    assert_eq!(RiscV64Sv39Arch::table_of_satp(1).data(), 0x1000);
}

#[test]
fn table_ignores_mode_and_address_space_fields() {
    assert_eq!(RiscV64Sv39Arch::table_of_satp(0xFFFF_F000_0000_0000).data(), 0);
    assert_eq!(RiscV64Sv39Arch::table_of_satp(0x8123_4000_0000_0042).data(), 0x4_2000);
    assert_eq!(RiscV64Sv39Arch::table_of_satp(u64::MAX).data(), 0x00FF_FFFF_FFFF_F000);
}

#[test]
fn table_round_trip_clears_the_page_offset() {
    for address in [0u64, 0x1000, 0x1234, 0x8020_0FFF, 0x00FF_FFFF_FFFF_FFFF] {
        let satp = RiscV64Sv39Arch::satp_of_table(PhysicalAddress::new(address));
        assert_eq!(RiscV64Sv39Arch::table_of_satp(satp).data(), address & !0xFFF);
    }
}

#[test]
fn table_round_trip_loses_what_the_register_has_no_room_for() {
    let satp = RiscV64Sv39Arch::satp_of_table(PhysicalAddress::new(0x0100_0000_0000_0000));
    assert_eq!(satp, 0x8000_1000_0000_0000);
    assert_eq!(RiscV64Sv39Arch::table_of_satp(satp).data(), 0);
    let satp = RiscV64Sv39Arch::satp_of_table(PhysicalAddress::new(0xFF00_0000_0000_5000));
    assert_eq!(RiscV64Sv39Arch::table_of_satp(satp).data(), 0x5000);
}

#[test]
fn set_table_writes_the_register() {
    let mut machine = Machine::new(0);
    RiscV64Sv39Arch::set_table(&mut machine, PhysicalAddress::new(0x8020_0000));
    assert_eq!(machine.root_register(), 0x8000_0000_0008_0200);
    assert_eq!(RiscV64Sv39Arch::table(&machine).data(), 0x8020_0000);
}

#[test]
fn table_after_set_table_is_page_aligned() {
    let mut machine = Machine::new(0);
    RiscV64Sv39Arch::set_table(&mut machine, PhysicalAddress::new(0x8020_0ABC));
    assert_eq!(RiscV64Sv39Arch::table(&machine), PhysicalAddress::new(0x8020_0000));
}

#[test]
fn table_of_a_blank_machine() {
    let machine = Machine::new(0);
    assert_eq!(RiscV64Sv39Arch::table(&machine).data(), 0);
}

#[test]
fn set_table_drops_every_translation() {
    let mut machine = Machine::new(0x3000);
    RiscV64Sv39Arch::read(&mut machine, VirtualAddress::new(DIRECT_MAP));
    RiscV64Sv39Arch::read(&mut machine, VirtualAddress::new(DIRECT_MAP + 0x2000));
    assert!(machine.is_cached(DIRECT_MAP >> 12));
    assert!(machine.is_cached((DIRECT_MAP >> 12) + 2));
    RiscV64Sv39Arch::set_table(&mut machine, PhysicalAddress::new(0x1000));
    assert!(!machine.is_cached(DIRECT_MAP >> 12));
    assert!(!machine.is_cached((DIRECT_MAP >> 12) + 2));
}

#[test]
fn invalidate_all_keeps_the_table_and_drops_the_translations() {
    let mut machine = Machine::new(0x2000);
    RiscV64Sv39Arch::set_table(&mut machine, PhysicalAddress::new(0x8020_0000));
    RiscV64Sv39Arch::write(&mut machine, VirtualAddress::new(DIRECT_MAP + 0x1008), 0xFEED);
    assert!(machine.is_cached((DIRECT_MAP >> 12) + 1));
    RiscV64Sv39Arch::invalidate_all(&mut machine);
    assert!(!machine.is_cached((DIRECT_MAP >> 12) + 1));
    assert_eq!(RiscV64Sv39Arch::table(&machine).data(), 0x8020_0000);
    assert_eq!(machine.root_register(), 0x8000_0000_0008_0200);
    assert_eq!(machine.load(0x1008), 0xFEED);
}

#[test]
fn invalidate_all_is_set_table_of_table() {
    let mut one = Machine::new(0x1000);
    let mut other = Machine::new(0x1000);
    for machine in [&mut one, &mut other] {
        machine.set_root_register(0x0000_0123_0000_0456);
        RiscV64Sv39Arch::read(machine, VirtualAddress::new(DIRECT_MAP));
    }
    RiscV64Sv39Arch::invalidate_all(&mut one);
    let table = RiscV64Sv39Arch::table(&other);
    RiscV64Sv39Arch::set_table(&mut other, table);
    assert_eq!(one.root_register(), other.root_register());
    assert_eq!(one.is_cached(DIRECT_MAP >> 12), other.is_cached(DIRECT_MAP >> 12));
    assert_eq!(RiscV64Sv39Arch::table(&one), RiscV64Sv39Arch::table(&other));
    assert_eq!(RiscV64Sv39Arch::table(&one).data(), 0x0012_3000_0045_6000);
}

#[test]
fn invalidate_drops_every_translation() {
    let mut machine = Machine::new(0x3000);
    RiscV64Sv39Arch::set_table(&mut machine, PhysicalAddress::new(0x7000));
    RiscV64Sv39Arch::read(&mut machine, VirtualAddress::new(DIRECT_MAP));
    RiscV64Sv39Arch::read(&mut machine, VirtualAddress::new(DIRECT_MAP + 0x1000));
    RiscV64Sv39Arch::read(&mut machine, VirtualAddress::new(DIRECT_MAP + 0x2000));
    RiscV64Sv39Arch::invalidate(&mut machine, VirtualAddress::new(DIRECT_MAP + 0x1000));
    assert!(!machine.is_cached(DIRECT_MAP >> 12));
    assert!(!machine.is_cached((DIRECT_MAP >> 12) + 1));
    assert!(!machine.is_cached((DIRECT_MAP >> 12) + 2));
    assert_eq!(RiscV64Sv39Arch::table(&machine).data(), 0x7000);
}

// The variant has no discovery and its `init` is not to be called. What is
// compiled hands out no memory map all the same, not even an empty one.
#[test]
fn init_has_no_memory_map() {
    assert!(RiscV64Sv39Arch::init(&Machine::new(0x1000)).is_none());
    assert!(RiscV64Sv39Arch::init(&Machine::new(0)).is_none());
}

#[test]
fn phys_to_virt_adds_the_direct_map_offset() {
    assert_eq!(
        RiscV64Sv39Arch::phys_to_virt(PhysicalAddress::new(0)).data(),
        0xFFFF_FE00_0000_0000
    );
    assert_eq!(
        RiscV64Sv39Arch::phys_to_virt(PhysicalAddress::new(0x8020_0000)).data(),
        0xFFFF_FE00_8020_0000
    );
    assert_eq!(
        RiscV64Sv39Arch::phys_to_virt(PhysicalAddress::new(0x0000_01FF_FFFF_FFFF)).data(),
        u64::MAX
    );
}

#[test]
fn write_then_read_through_the_direct_map() {
    let mut machine = Machine::new(0x2000);
    let address = RiscV64Sv39Arch::phys_to_virt(PhysicalAddress::new(0x1230));
    RiscV64Sv39Arch::write(&mut machine, address, 0x0123_4567_89AB_CDEF);
    assert_eq!(RiscV64Sv39Arch::read(&mut machine, address), 0x0123_4567_89AB_CDEF);
    assert_eq!(machine.load(0x1230), 0x0123_4567_89AB_CDEF);
    assert_eq!(RiscV64Sv39Arch::read(&mut machine, address.add(8)), 0);
}

#[test]
fn access_caches_the_page_of_the_address() {
    let mut machine = Machine::new(0x2000);
    let address = VirtualAddress::new(DIRECT_MAP + 0x1FF8);
    assert!(!machine.is_cached(address.data() >> 12));
    RiscV64Sv39Arch::write(&mut machine, address, 1);
    assert!(machine.is_cached(0xF_FFFF_E000_0001));
    assert!(!machine.is_cached(0xF_FFFF_E000_0000));
}

#[test]
fn read_leaves_memory_and_register() {
    let mut machine = Machine::new(0x1000);
    machine.set_root_register(0x8000_0000_0000_0007);
    machine.store(0x10, 0x55);
    assert_eq!(RiscV64Sv39Arch::read(&mut machine, VirtualAddress::new(DIRECT_MAP + 0x10)), 0x55);
    assert_eq!(machine.load(0x10), 0x55);
    assert_eq!(machine.root_register(), 0x8000_0000_0000_0007);
}

#[test]
fn invalidate_all_writes_the_register_anew() {
    let mut machine = Machine::new(0);
    assert_eq!(machine.root_register(), 0);
    RiscV64Sv39Arch::invalidate_all(&mut machine);
    assert_eq!(machine.root_register(), 0x8000_0000_0000_0000);
    assert_eq!(RiscV64Sv39Arch::table(&machine).data(), 0);
    RiscV64Sv39Arch::invalidate_all(&mut machine);
    assert_eq!(machine.root_register(), 0x8000_0000_0000_0000);
}

#[test]
fn invalidate_all_twice_is_invalidate_all_once() {
    let mut machine = Machine::new(0x1000);
    RiscV64Sv39Arch::set_table(&mut machine, PhysicalAddress::new(0x1234_5678));
    RiscV64Sv39Arch::invalidate_all(&mut machine);
    let (register, table) = (machine.root_register(), RiscV64Sv39Arch::table(&machine));
    RiscV64Sv39Arch::invalidate_all(&mut machine);
    assert_eq!(machine.root_register(), register);
    assert_eq!(RiscV64Sv39Arch::table(&machine), table);
    assert_eq!(table.data(), 0x1234_5000);
}
