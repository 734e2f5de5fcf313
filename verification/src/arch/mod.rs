//! The capability interface of an architecture: the geometry of its page
//! tables, the layout of its table entries and the primitive operations on
//! the translation hardware.
use crate::machine::{with_word, word_at, Machine};
use crate::{MemoryArea, PhysicalAddress, VirtualAddress};
use vstd::arithmetic::power2::{lemma_pow2_strictly_increases, pow2};
use vstd::bits::{lemma_u64_pow2_no_overflow, lemma_u64_shl_is_mul, lemma_u64_shr_is_div};
use vstd::prelude::*;

pub mod emulate;
pub mod riscv64;

verus! {

/// Whether primitive parameters describe a hierarchy whose every derived
/// constant is a machine word: a table entry is no larger than a page, the
/// translated bits fit a word, and the entry's address field reaches at
/// least one page and ends inside the word.
pub open spec fn valid_parameters(
    page_shift: u64,
    page_entry_shift: u64,
    page_levels: u64,
    entry_address_shift: u64,
) -> bool {
    &&& page_entry_shift <= page_shift
    &&& page_levels * page_entry_shift + page_shift < 64
    &&& page_shift <= entry_address_shift < 64
}

/// For valid primitive parameters, the expressions by which [`Arch`] derives
/// its constants are free of overflow and evaluate to the formulas of the
/// geometry.
pub proof fn lemma_derivation(
    page_shift: u64,
    page_entry_shift: u64,
    page_levels: u64,
    entry_address_shift: u64,
)
    requires
        valid_parameters(page_shift, page_entry_shift, page_levels, entry_address_shift),
    ensures
        ({
            let page_size = 1u64 << page_shift;
            let page_address_shift = (page_levels * page_entry_shift + page_shift) as u64;
            let page_address_size = 1u64 << page_address_shift;
            let page_entries = 1u64 << page_entry_shift;
            let entry_address_size = 1u64 << entry_address_shift;
            &&& page_size == pow2(page_shift as nat)
            &&& page_address_size == pow2(page_address_shift as nat)
            &&& 1u64 << ((page_shift - page_entry_shift) as u64) == pow2(
                (page_shift - page_entry_shift) as nat,
            )
            &&& page_entries == pow2(page_entry_shift as nat)
            &&& entry_address_size == pow2(entry_address_shift as nat)
            &&& 1 <= page_entries
            &&& 1 <= page_size <= page_address_size
            &&& page_size <= entry_address_size
            &&& !((page_address_size - 1) as u64) == u64::MAX - (page_address_size - 1)
            &&& !((entry_address_size - page_size) as u64) == u64::MAX - (entry_address_size
                - page_size)
        }),
{
    let page_address_shift = (page_levels * page_entry_shift + page_shift) as u64;
    assert(page_shift <= page_address_shift) by (nonlinear_arith)
        requires
            page_address_shift == page_levels * page_entry_shift + page_shift,
    ;
    lemma_shift_is_pow2(page_shift);
    lemma_shift_is_pow2(page_address_shift);
    lemma_shift_is_pow2((page_shift - page_entry_shift) as u64);
    lemma_shift_is_pow2(page_entry_shift);
    lemma_shift_is_pow2(entry_address_shift);
    if page_shift < page_address_shift {
        lemma_pow2_strictly_increases(page_shift as nat, page_address_shift as nat);
    }
    if page_shift < entry_address_shift {
        lemma_pow2_strictly_increases(page_shift as nat, entry_address_shift as nat);
    }
    lemma_complement(((1u64 << page_address_shift) - 1) as u64);
    lemma_complement(((1u64 << entry_address_shift) - (1u64 << page_shift)) as u64);
}

proof fn lemma_shift_is_pow2(shift: u64)
    requires
        shift < 64,
    ensures
        1u64 << shift == pow2(shift as nat),
        1 <= pow2(shift as nat) <= u64::MAX,
{
    lemma_u64_pow2_no_overflow(shift as nat);
    lemma_u64_shl_is_mul(1, shift);
}

proof fn lemma_complement(word: u64)
    ensures
        !word == u64::MAX - word,
{
    assert(!word == 0xffff_ffff_ffff_ffff - word) by (bit_vector);
}

/// The number of the virtual page that holds `address`, where a page has
/// `page_size` bytes.
pub open spec fn page_number(address: VirtualAddress, page_size: u64) -> u64 {
    (address.data() / page_size) as u64
}

/// What an architecture gives a page-table walker: the geometry of the table
/// hierarchy, the layout of a table entry, and the primitive operations on
/// the translation hardware.
///
/// Each operation acts on the [`Machine`] it is given and on nothing else.
/// The operations are raw: they check no address and report no error.
pub trait Arch {
    /// Binary logarithm of the size of a leaf page.
    const PAGE_SHIFT: u64;

    /// Binary logarithm of the number of entries of one table.
    const PAGE_ENTRY_SHIFT: u64;

    /// Depth of the table hierarchy.
    const PAGE_LEVELS: u64;

    /// Virtual address at which the direct map of physical memory begins.
    const PAGE_OFFSET: u64;

    /// Binary logarithm of the end of the address field of a table entry.
    const ENTRY_ADDRESS_SHIFT: u64;

    const ENTRY_FLAG_PRESENT: u64;

    const ENTRY_FLAG_WRITABLE: u64;

    const ENTRY_FLAG_USER: u64;

    const ENTRY_FLAG_HUGE: u64;

    const ENTRY_FLAG_GLOBAL: u64;

    const ENTRY_FLAG_NO_EXEC: u64;

    const PAGE_SIZE: u64 = 1 << Self::PAGE_SHIFT;

    const PAGE_OFFSET_MASK: u64 = Self::PAGE_SIZE - 1;

    /// Number of virtual-address bits that the hierarchy translates.
    const PAGE_ADDRESS_SHIFT: u64 = Self::PAGE_LEVELS * Self::PAGE_ENTRY_SHIFT + Self::PAGE_SHIFT;

    const PAGE_ADDRESS_SIZE: u64 = 1 << Self::PAGE_ADDRESS_SHIFT;

    /// Selects the translated bits above the offset within a page.
    const PAGE_ADDRESS_MASK: u64 = Self::PAGE_ADDRESS_SIZE - Self::PAGE_SIZE;

    /// Size in bytes of one table entry.
    const PAGE_ENTRY_SIZE: u64 = 1 << (Self::PAGE_SHIFT - Self::PAGE_ENTRY_SHIFT);

    const PAGE_ENTRIES: u64 = 1 << Self::PAGE_ENTRY_SHIFT;

    const PAGE_ENTRY_MASK: u64 = Self::PAGE_ENTRIES - 1;

    /// Selects the bits above the translated range, which extend the sign.
    const PAGE_NEGATIVE_MASK: u64 = !(Self::PAGE_ADDRESS_SIZE - 1);

    const ENTRY_ADDRESS_SIZE: u64 = 1 << Self::ENTRY_ADDRESS_SHIFT;

    /// Selects the address field of a table entry.
    const ENTRY_ADDRESS_MASK: u64 = Self::ENTRY_ADDRESS_SIZE - Self::PAGE_SIZE;

    /// Selects the flag bits of a table entry.
    const ENTRY_FLAGS_MASK: u64 = !Self::ENTRY_ADDRESS_MASK;

    /// The root table address that the root register holds when its raw
    /// value is `register`.
    spec fn table_of_register(register: u64) -> u64;

    /// The raw value that the root register takes for the root table at
    /// `address`.
    spec fn register_of_table(address: u64) -> u64;

    /// Whether the root register has room for every bit of `address` above
    /// the offset within a page.
    spec fn fits_register(address: u64) -> bool;

    /// The memory areas that `init` reports for `machine`, if it reports any.
    spec fn spec_init(machine: Machine) -> Option<Seq<MemoryArea>>;

    /// The primitive parameters are valid and every derived constant is what
    /// its formula gives for them. The complement of a word `w` is
    /// `u64::MAX - w`.
    proof fn lemma_geometry()
        ensures
            valid_parameters(
                Self::PAGE_SHIFT,
                Self::PAGE_ENTRY_SHIFT,
                Self::PAGE_LEVELS,
                Self::ENTRY_ADDRESS_SHIFT,
            ),
            Self::PAGE_SIZE == pow2(Self::PAGE_SHIFT as nat),
            Self::PAGE_OFFSET_MASK == Self::PAGE_SIZE - 1,
            Self::PAGE_ADDRESS_SHIFT == Self::PAGE_LEVELS * Self::PAGE_ENTRY_SHIFT
                + Self::PAGE_SHIFT,
            Self::PAGE_ADDRESS_SIZE == pow2(Self::PAGE_ADDRESS_SHIFT as nat),
            Self::PAGE_ADDRESS_MASK == Self::PAGE_ADDRESS_SIZE - Self::PAGE_SIZE,
            Self::PAGE_ENTRY_SIZE == pow2((Self::PAGE_SHIFT - Self::PAGE_ENTRY_SHIFT) as nat),
            Self::PAGE_ENTRIES == pow2(Self::PAGE_ENTRY_SHIFT as nat),
            Self::PAGE_ENTRY_MASK == Self::PAGE_ENTRIES - 1,
            Self::PAGE_NEGATIVE_MASK == u64::MAX - (Self::PAGE_ADDRESS_SIZE - 1),
            Self::ENTRY_ADDRESS_SIZE == pow2(Self::ENTRY_ADDRESS_SHIFT as nat),
            Self::ENTRY_ADDRESS_MASK == Self::ENTRY_ADDRESS_SIZE - Self::PAGE_SIZE,
            Self::ENTRY_FLAGS_MASK == u64::MAX - Self::ENTRY_ADDRESS_MASK,
    ;

    /// Whatever the root register holds, the root table address read from it
    /// is page aligned and fits the register.
    proof fn lemma_table_of_register(register: u64)
        ensures
            Self::table_of_register(register) % Self::PAGE_SIZE == 0,
            Self::fits_register(Self::table_of_register(register)),
    ;

    /// An address that fits the root register is read back from it with the
    /// offset within the page cleared.
    proof fn lemma_table_round_trip(address: u64)
        requires
            Self::fits_register(address),
        ensures
            Self::table_of_register(Self::register_of_table(address)) == address - address
                % Self::PAGE_SIZE,
    ;

    /// Discovers the usable physical memory of `machine`.
    ///
    /// An architecture without discovery has `spec_init` at `None` for every
    /// machine: there nothing meets the precondition, and the operation is
    /// not to be called. Reaching for it is fatal to the caller; it is never
    /// an empty memory map.
    fn init(machine: &Machine) -> (areas: Option<Vec<MemoryArea>>)
        requires
            Self::spec_init(*machine) is Some,
        ensures
            Self::spec_init(*machine) == match areas {
                Some(found) => Some(found@),
                None => None,
            },
    ;

    /// Loads the word at virtual address `address` through the direct map.
    /// The access caches the translation of its page.
    #[inline(always)]
    fn read(machine: &mut Machine, address: VirtualAddress) -> (value: u64)
        requires
            Self::PAGE_OFFSET <= address.data(),
            address.data() - Self::PAGE_OFFSET + 8 <= old(machine).memory().len(),
        ensures
            value == word_at(old(machine).memory(), address.data() - Self::PAGE_OFFSET),
            final(machine).memory() == old(machine).memory(),
            final(machine).register() == old(machine).register(),
            final(machine).cached() == old(machine).cached().insert(
                page_number(address, Self::PAGE_SIZE),
            ),
    {
        proof {
            Self::lemma_geometry();
            lemma_u64_shr_is_div(address.data(), Self::PAGE_SHIFT);
        }
        machine.cache_translation(address.data() >> Self::PAGE_SHIFT);
        machine.load(address.data() - Self::PAGE_OFFSET)
    }

    /// Stores `value` at virtual address `address` through the direct map.
    /// The access caches the translation of its page.
    #[inline(always)]
    fn write(machine: &mut Machine, address: VirtualAddress, value: u64)
        requires
            Self::PAGE_OFFSET <= address.data(),
            address.data() - Self::PAGE_OFFSET + 8 <= old(machine).memory().len(),
        ensures
            final(machine).memory() == with_word(
                old(machine).memory(),
                address.data() - Self::PAGE_OFFSET,
                value,
            ),
            final(machine).register() == old(machine).register(),
            final(machine).cached() == old(machine).cached().insert(
                page_number(address, Self::PAGE_SIZE),
            ),
    {
        proof {
            Self::lemma_geometry();
            lemma_u64_shr_is_div(address.data(), Self::PAGE_SHIFT);
        }
        machine.cache_translation(address.data() >> Self::PAGE_SHIFT);
        machine.store(address.data() - Self::PAGE_OFFSET, value);
    }

    /// Drops the cached translation of the page that holds `address`. An
    /// architecture that cannot select one translation drops more, never
    /// less. The root table and memory stay as they are.
    fn invalidate(machine: &mut Machine, address: VirtualAddress)
        ensures
            !final(machine).cached().contains(page_number(address, Self::PAGE_SIZE)),
            final(machine).cached().subset_of(old(machine).cached()),
            Self::table_of_register(final(machine).register()) == Self::table_of_register(
                old(machine).register(),
            ),
            final(machine).memory() == old(machine).memory(),
    ;

    /// Drops every cached translation, by activating the active root table
    /// again: the machine is left as `table` followed by `set_table` of its
    /// result leaves it. The root table and memory stay as they are.
    #[inline(always)]
    fn invalidate_all(machine: &mut Machine)
        ensures
            final(machine).cached() == Set::<u64>::empty(),
            final(machine).register() == Self::register_of_table(
                Self::table_of_register(old(machine).register()),
            ),
            Self::table_of_register(final(machine).register()) == Self::table_of_register(
                old(machine).register(),
            ),
            final(machine).memory() == old(machine).memory(),
    {
        let table = Self::table(machine);
        proof {
            Self::lemma_table_of_register(machine.register());
            Self::lemma_table_round_trip(table.data());
        }
        Self::set_table(machine, table);
    }

    /// The address of the active root table.
    fn table(machine: &Machine) -> (root: PhysicalAddress)
        ensures
            root.data() == Self::table_of_register(machine.register()),
    ;

    /// Activates the root table at `address`, which drops every cached
    /// translation. The address is taken as it is: aligning it to a page is
    /// the caller's part.
    fn set_table(machine: &mut Machine, address: PhysicalAddress)
        ensures
            final(machine).register() == Self::register_of_table(address.data()),
            final(machine).cached() == Set::<u64>::empty(),
            final(machine).memory() == old(machine).memory(),
    ;

    /// The virtual address at which the direct map shows physical address
    /// `phys`.
    fn phys_to_virt(phys: PhysicalAddress) -> (virt: VirtualAddress)
        requires
            phys.data() + Self::PAGE_OFFSET <= u64::MAX,
        ensures
            virt.data() == phys.data() + Self::PAGE_OFFSET,
    {
        VirtualAddress::new(phys.data() + Self::PAGE_OFFSET)
    }
}

} // verus!
