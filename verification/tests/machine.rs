use paging_hal::Machine;

#[test]
fn new_machine_is_blank() {
    let machine = Machine::new(64);
    assert_eq!(machine.memory_size(), 64);
    assert_eq!(machine.root_register(), 0);
    for at in 0..=56 {
        assert_eq!(machine.load(at), 0);
    }
    assert!(!machine.is_cached(0));
    assert!(!machine.is_cached(0xF_FFFF_FFFF_FFFF));
}

#[test]
fn machine_without_memory() {
    let machine = Machine::new(0);
    assert_eq!(machine.memory_size(), 0);
    assert_eq!(machine.root_register(), 0);
}

#[test]
fn stored_word_is_loaded_again() {
    let mut machine = Machine::new(32);
    machine.store(8, 0x0123_4567_89AB_CDEF);
    assert_eq!(machine.load(8), 0x0123_4567_89AB_CDEF);
    machine.store(8, 0);
    assert_eq!(machine.load(8), 0);
    machine.store(8, u64::MAX);
    assert_eq!(machine.load(8), u64::MAX);
}

#[test]
fn words_lie_least_significant_byte_first() {
    let mut machine = Machine::new(32);
    machine.store(0, 0x0807_0605_0403_0201);
    machine.store(8, 0x100F_0E0D_0C0B_0A09);
    assert_eq!(machine.load(1), 0x0908_0706_0504_0302);
    assert_eq!(machine.load(4), 0x0C0B_0A09_0807_0605);
    assert_eq!(machine.load(7), 0x0F0E_0D0C_0B0A_0908);
}

#[test]
fn store_touches_eight_bytes_only() {
    let mut machine = Machine::new(32);
    machine.store(0, u64::MAX);
    machine.store(8, u64::MAX);
    machine.store(16, u64::MAX);
    machine.store(8, 0);
    assert_eq!(machine.load(0), u64::MAX);
    assert_eq!(machine.load(8), 0);
    assert_eq!(machine.load(16), u64::MAX);
}

#[test]
fn unaligned_store_overlaps_its_neighbours() {
    let mut machine = Machine::new(24);
    machine.store(3, 0x1122_3344_5566_7788);
    assert_eq!(machine.load(3), 0x1122_3344_5566_7788);
    assert_eq!(machine.load(0), 0x4455_6677_8800_0000);
    assert_eq!(machine.load(8), 0x0000_0000_0011_2233);
}

#[test]
fn last_word_of_memory() {
    let mut machine = Machine::new(16);
    machine.store(8, 0xDEAD_BEEF_0BAD_F00D);
    assert_eq!(machine.load(8), 0xDEAD_BEEF_0BAD_F00D);
    assert_eq!(machine.load(0), 0);
}

#[test]
fn store_leaves_register_and_cache() {
    let mut machine = Machine::new(16);
    machine.set_root_register(0x5000);
    machine.cache_translation(3);
    machine.store(0, 9);
    assert_eq!(machine.root_register(), 0x5000);
    assert!(machine.is_cached(3));
}

#[test]
fn root_register_holds_what_was_written() {
    let mut machine = Machine::new(0);
    machine.set_root_register(0x8000_0000_0008_0000);
    assert_eq!(machine.root_register(), 0x8000_0000_0008_0000);
    machine.set_root_register(0xFFF);
    assert_eq!(machine.root_register(), 0xFFF);
}

#[test]
fn writing_the_root_register_drops_every_translation() {
    let mut machine = Machine::new(16);
    machine.store(0, 0x77);
    machine.cache_translation(1);
    machine.cache_translation(2);
    machine.cache_translation(0xF_FFFF_FFFF_FFFF);
    machine.set_root_register(0x1000);
    assert!(!machine.is_cached(1));
    assert!(!machine.is_cached(2));
    assert!(!machine.is_cached(0xF_FFFF_FFFF_FFFF));
    assert_eq!(machine.load(0), 0x77);
}

#[test]
fn cached_translations_are_a_set() {
    let mut machine = Machine::new(0);
    assert!(!machine.is_cached(5));
    machine.cache_translation(5);
    machine.cache_translation(5);
    machine.cache_translation(6);
    assert!(machine.is_cached(5));
    assert!(machine.is_cached(6));
    assert!(!machine.is_cached(7));
    machine.flush_translation(5);
    assert!(!machine.is_cached(5));
    assert!(machine.is_cached(6));
}

#[test]
fn flushing_an_absent_translation_changes_nothing() {
    let mut machine = Machine::new(0);
    machine.cache_translation(1);
    machine.flush_translation(2);
    assert!(machine.is_cached(1));
    assert!(!machine.is_cached(2));
}

#[test]
fn caching_leaves_register_and_memory() {
    let mut machine = Machine::new(8);
    machine.store(0, 0xABCD);
    machine.set_root_register(0x9000);
    machine.cache_translation(4);
    machine.flush_translation(4);
    assert_eq!(machine.root_register(), 0x9000);
    assert_eq!(machine.load(0), 0xABCD);
}
