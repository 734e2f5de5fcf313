//! Paging hardware abstraction: address value types, the page-table geometry
//! of each supported architecture, and the primitive operations on the
//! translation hardware (root register, translation cache, mapped memory).
//!
//! Every machine word is 64 bits wide.
use core::cmp::Ordering;
use vstd::prelude::*;
use vstd::std_specs::cmp::PartialOrdIs;

pub mod arch;
pub mod machine;

pub use crate::arch::emulate::EmulateArch;
pub use crate::arch::riscv64::sv39::RiscV64Sv39Arch;
pub use crate::arch::Arch;
pub use crate::machine::Machine;

verus! {

pub const KILOBYTE: u64 = 1024;

pub const MEGABYTE: u64 = KILOBYTE * KILOBYTE;

pub const GIGABYTE: u64 = KILOBYTE * MEGABYTE;

pub const TERABYTE: u64 = KILOBYTE * GIGABYTE;

/// Physical memory address.
///
/// An opaque wrapper over a machine word. No range or alignment is checked
/// at construction; equality and order are those of the wrapped word.
#[derive(Clone, Copy, Debug, PartialEq, Eq, Structural, Ord)]
pub struct PhysicalAddress(u64);

impl PhysicalAddress {
    /// The address that wraps `address`.
    pub closed spec fn spec_new(address: u64) -> Self {
        Self(address)
    }

    /// The wrapped word.
    pub closed spec fn spec_data(&self) -> u64 {
        self.0
    }

    /// The address `offset` bytes further on, where that is a machine word.
    pub closed spec fn spec_add(self, offset: u64) -> Self {
        Self((self.0 + offset) as u64)
    }

    #[inline(always)]
    #[verifier::when_used_as_spec(spec_new)]
    pub fn new(address: u64) -> (r: Self)
        ensures
            r == Self::new(address),
            r.data() == address,
    {
        Self(address)
    }

    #[inline(always)]
    #[verifier::when_used_as_spec(spec_data)]
    pub fn data(&self) -> (r: u64)
        ensures
            r == self.data(),
    {
        self.0
    }

    /// Advances the address by `offset` bytes. The sum has to be a machine word.
    #[inline(always)]
    #[verifier::when_used_as_spec(spec_add)]
    pub fn add(self, offset: u64) -> (r: Self)
        requires
            self.data() + offset <= u64::MAX,
        ensures
            r == self.add(offset),
            r.data() == self.data() + offset,
    {
        Self(self.0 + offset)
    }

    /// Two addresses are equal where their words are.
    pub proof fn lemma_equal_is_word_equal(a: Self, b: Self)
        ensures
            a == b <==> a.data() == b.data(),
    {
    }

    /// The address made of a word holds that word.
    pub proof fn lemma_new(address: u64)
        ensures
            Self::new(address).data() == address,
    {
    }

    /// Advancing adds to the word, as long as the sum is a machine word.
    pub proof fn lemma_add(a: Self, offset: u64)
        requires
            a.data() + offset <= u64::MAX,
        ensures
            a.add(offset).data() == a.data() + offset,
    {
    }

    /// Advancing in two steps is advancing by the sum of the steps.
    pub proof fn lemma_add_associative(a: Self, x: u64, y: u64)
        requires
            a.data() + x + y <= u64::MAX,
        ensures
            a.add(x).add(y) == a.add((x + y) as u64),
            a.add(x).add(y).data() == a.data() + x + y,
            a.add(0) == a,
    {
    }

    /// Addresses compare as their words do.
    pub proof fn lemma_order_is_word_order(a: Self, b: Self)
        ensures
            a.is_lt(&b) <==> a.data() < b.data(),
            a.is_le(&b) <==> a.data() <= b.data(),
            a.is_gt(&b) <==> a.data() > b.data(),
            a.is_ge(&b) <==> a.data() >= b.data(),
    {
    }
}

impl PartialOrd for PhysicalAddress {
    fn partial_cmp(&self, other: &Self) -> (r: Option<Ordering>) {
        if self.0 < other.0 {
            Some(Ordering::Less)
        } else if self.0 == other.0 {
            Some(Ordering::Equal)
        } else {
            Some(Ordering::Greater)
        }
    }
}

impl vstd::std_specs::cmp::PartialOrdSpecImpl for PhysicalAddress {
    open spec fn obeys_partial_cmp_spec() -> bool {
        true
    }

    open spec fn partial_cmp_spec(&self, other: &Self) -> Option<Ordering> {
        if self.data() < other.data() {
            Some(Ordering::Less)
        } else if self.data() == other.data() {
            Some(Ordering::Equal)
        } else {
            Some(Ordering::Greater)
        }
    }
}

/// Virtual memory address.
///
/// An opaque wrapper over a machine word, distinct from [`PhysicalAddress`]
/// so that the two cannot be mixed up. No range or alignment is checked at
/// construction; equality and order are those of the wrapped word.
#[derive(Clone, Copy, Debug, PartialEq, Eq, Structural, Ord)]
pub struct VirtualAddress(u64);

impl VirtualAddress {
    /// The address that wraps `address`.
    pub closed spec fn spec_new(address: u64) -> Self {
        Self(address)
    }

    /// The wrapped word.
    pub closed spec fn spec_data(&self) -> u64 {
        self.0
    }

    /// The address `offset` bytes further on, where that is a machine word.
    pub closed spec fn spec_add(self, offset: u64) -> Self {
        Self((self.0 + offset) as u64)
    }

    #[inline(always)]
    #[verifier::when_used_as_spec(spec_new)]
    pub fn new(address: u64) -> (r: Self)
        ensures
            r == Self::new(address),
            r.data() == address,
    {
        Self(address)
    }

    #[inline(always)]
    #[verifier::when_used_as_spec(spec_data)]
    pub fn data(&self) -> (r: u64)
        ensures
            r == self.data(),
    {
        self.0
    }

    /// Advances the address by `offset` bytes. The sum has to be a machine word.
    #[inline(always)]
    #[verifier::when_used_as_spec(spec_add)]
    pub fn add(self, offset: u64) -> (r: Self)
        requires
            self.data() + offset <= u64::MAX,
        ensures
            r == self.add(offset),
            r.data() == self.data() + offset,
    {
        Self(self.0 + offset)
    }

    /// Two addresses are equal where their words are.
    pub proof fn lemma_equal_is_word_equal(a: Self, b: Self)
        ensures
            a == b <==> a.data() == b.data(),
    {
    }

    /// The address made of a word holds that word.
    pub proof fn lemma_new(address: u64)
        ensures
            Self::new(address).data() == address,
    {
    }

    /// Advancing adds to the word, as long as the sum is a machine word.
    pub proof fn lemma_add(a: Self, offset: u64)
        requires
            a.data() + offset <= u64::MAX,
        ensures
            a.add(offset).data() == a.data() + offset,
    {
    }

    /// Advancing in two steps is advancing by the sum of the steps.
    pub proof fn lemma_add_associative(a: Self, x: u64, y: u64)
        requires
            a.data() + x + y <= u64::MAX,
        ensures
            a.add(x).add(y) == a.add((x + y) as u64),
            a.add(x).add(y).data() == a.data() + x + y,
            a.add(0) == a,
    {
    }

    /// Addresses compare as their words do.
    pub proof fn lemma_order_is_word_order(a: Self, b: Self)
        ensures
            a.is_lt(&b) <==> a.data() < b.data(),
            a.is_le(&b) <==> a.data() <= b.data(),
            a.is_gt(&b) <==> a.data() > b.data(),
            a.is_ge(&b) <==> a.data() >= b.data(),
    {
    }
}

impl PartialOrd for VirtualAddress {
    fn partial_cmp(&self, other: &Self) -> (r: Option<Ordering>) {
        if self.0 < other.0 {
            Some(Ordering::Less)
        } else if self.0 == other.0 {
            Some(Ordering::Equal)
        } else {
            Some(Ordering::Greater)
        }
    }
}

impl vstd::std_specs::cmp::PartialOrdSpecImpl for VirtualAddress {
    open spec fn obeys_partial_cmp_spec() -> bool {
        true
    }

    open spec fn partial_cmp_spec(&self, other: &Self) -> Option<Ordering> {
        if self.data() < other.data() {
            Some(Ordering::Less)
        } else if self.data() == other.data() {
            Some(Ordering::Equal)
        } else {
            Some(Ordering::Greater)
        }
    }
}

/// One physically contiguous region of usable memory: `size` bytes from
/// `base` on.
#[derive(Debug)]
pub struct MemoryArea {
    pub base: PhysicalAddress,
    pub size: u64,
}

} // verus!
