//! The translation hardware as a value: the raw root-table register, the
//! translation cache and byte-addressed physical memory.
//!
//! An architecture drives a [`Machine`] through the operations of
//! [`crate::arch::Arch`]. Held in host memory, a machine lets code written
//! against that interface run without privileged hardware.
use vstd::prelude::*;

verus! {

/// The word that the eight bytes from index `at` on spell, least significant
/// byte first.
pub open spec fn word_at(memory: Seq<u8>, at: int) -> u64
    recommends
        0 <= at,
        at + 8 <= memory.len(),
{
    (memory[at] + memory[at + 1] * 0x100 + memory[at + 2] * 0x1_0000 + memory[at + 3] * 0x100_0000
        + memory[at + 4] * 0x1_0000_0000 + memory[at + 5] * 0x100_0000_0000 + memory[at + 6]
        * 0x1_0000_0000_0000 + memory[at + 7] * 0x100_0000_0000_0000) as u64
}

/// `memory` with the eight bytes from index `at` on replaced by those of
/// `word`, least significant byte first.
pub open spec fn with_word(memory: Seq<u8>, at: int, word: u64) -> Seq<u8>
    recommends
        0 <= at,
        at + 8 <= memory.len(),
{
    memory.update(at, (word % 0x100) as u8).update(at + 1, (word / 0x100 % 0x100) as u8).update(
        at + 2,
        (word / 0x1_0000 % 0x100) as u8,
    ).update(at + 3, (word / 0x100_0000 % 0x100) as u8).update(
        at + 4,
        (word / 0x1_0000_0000 % 0x100) as u8,
    ).update(at + 5, (word / 0x100_0000_0000 % 0x100) as u8).update(
        at + 6,
        (word / 0x1_0000_0000_0000 % 0x100) as u8,
    ).update(at + 7, (word / 0x100_0000_0000_0000 % 0x100) as u8)
}

/// A word stored in memory is the word found there afterwards, and the store
/// leaves every byte outside the word as it was.
pub proof fn lemma_word_round_trip(memory: Seq<u8>, at: int, word: u64)
    requires
        0 <= at,
        at + 8 <= memory.len(),
    ensures
        word_at(with_word(memory, at, word), at) == word,
        with_word(memory, at, word).len() == memory.len(),
        forall|i: int|
            0 <= i < memory.len() && !(at <= i < at + 8) ==> with_word(memory, at, word)[i]
                == memory[i],
{
    assert(word % 0x100 + (word / 0x100 % 0x100) * 0x100 + (word / 0x1_0000 % 0x100) * 0x1_0000 + (
    word / 0x100_0000 % 0x100) * 0x100_0000 + (word / 0x1_0000_0000 % 0x100) * 0x1_0000_0000 + (word
        / 0x100_0000_0000 % 0x100) * 0x100_0000_0000 + (word / 0x1_0000_0000_0000 % 0x100)
        * 0x1_0000_0000_0000 + (word / 0x100_0000_0000_0000 % 0x100) * 0x100_0000_0000_0000
        == word) by (bit_vector);
}

/// Translation hardware held as a value.
pub struct Machine {
    register: u64,
    memory: Vec<u8>,
    cache: Vec<u64>,
}

impl Machine {
    /// The raw value of the root-table register.
    pub closed spec fn register(&self) -> u64 {
        self.register
    }

    /// Physical memory, byte by byte from physical address zero.
    pub closed spec fn memory(&self) -> Seq<u8> {
        self.memory@
    }

    /// The virtual page numbers whose translation is cached.
    pub closed spec fn cached(&self) -> Set<u64> {
        self.cache@.to_set()
    }

    /// A machine with `size` bytes of zeroed memory, a zero root register and
    /// an empty translation cache.
    pub fn new(size: usize) -> (machine: Self)
        ensures
            machine.register() == 0,
            machine.memory() == Seq::new(size as nat, |i: int| 0u8),
            machine.cached() == Set::<u64>::empty(),
    {
        Machine { register: 0, memory: vec![0u8; size], cache: Vec::new() }
    }

    /// Reads the root-table register.
    pub fn root_register(&self) -> (value: u64)
        ensures
            value == self.register(),
    {
        self.register
    }

    /// Writes the root-table register. The hardware drops every cached
    /// translation as it takes the new value.
    pub fn set_root_register(&mut self, value: u64)
        ensures
            final(self).register() == value,
            final(self).cached() == Set::<u64>::empty(),
            final(self).memory() == old(self).memory(),
    {
        self.register = value;
        self.cache.clear();
    }

    /// The number of bytes of physical memory.
    pub fn memory_size(&self) -> (size: usize)
        ensures
            size == self.memory().len(),
    {
        self.memory.len()
    }

    /// Loads the word at physical address `physical`.
    pub fn load(&self, physical: u64) -> (word: u64)
        requires
            physical + 8 <= self.memory().len(),
        ensures
            word == word_at(self.memory(), physical as int),
    {
        let size: usize = self.memory.len();
        assert(physical + 8 <= size);
        let at: usize = physical as usize;
        let b0: u64 = self.memory[at] as u64;
        let b1: u64 = self.memory[at + 1] as u64;
        let b2: u64 = self.memory[at + 2] as u64;
        let b3: u64 = self.memory[at + 3] as u64;
        let b4: u64 = self.memory[at + 4] as u64;
        let b5: u64 = self.memory[at + 5] as u64;
        let b6: u64 = self.memory[at + 6] as u64;
        let b7: u64 = self.memory[at + 7] as u64;
        assert(b0 | b1 << 8 | b2 << 16 | b3 << 24 | b4 << 32 | b5 << 40 | b6 << 48 | b7 << 56 == b0
            + b1 * 0x100 + b2 * 0x1_0000 + b3 * 0x100_0000 + b4 * 0x1_0000_0000 + b5
            * 0x100_0000_0000 + b6 * 0x1_0000_0000_0000 + b7 * 0x100_0000_0000_0000)
            by (bit_vector)
            requires
                b0 < 0x100,
                b1 < 0x100,
                b2 < 0x100,
                b3 < 0x100,
                b4 < 0x100,
                b5 < 0x100,
                b6 < 0x100,
                b7 < 0x100,
        ;
        b0 | b1 << 8 | b2 << 16 | b3 << 24 | b4 << 32 | b5 << 40 | b6 << 48 | b7 << 56
    }

    /// Stores `word` at physical address `physical`.
    pub fn store(&mut self, physical: u64, word: u64)
        requires
            physical + 8 <= old(self).memory().len(),
        ensures
            final(self).memory() == with_word(old(self).memory(), physical as int, word),
            final(self).register() == old(self).register(),
            final(self).cached() == old(self).cached(),
    {
        let size: usize = self.memory.len();
        assert(physical + 8 <= size);
        let at: usize = physical as usize;
        assert(word & 0xff == word % 0x100 && (word >> 8) & 0xff == word / 0x100 % 0x100 && (word
            >> 16) & 0xff == word / 0x1_0000 % 0x100 && (word >> 24) & 0xff == word / 0x100_0000
            % 0x100 && (word >> 32) & 0xff == word / 0x1_0000_0000 % 0x100 && (word >> 40) & 0xff
            == word / 0x100_0000_0000 % 0x100 && (word >> 48) & 0xff == word / 0x1_0000_0000_0000
            % 0x100 && (word >> 56) & 0xff == word / 0x100_0000_0000_0000 % 0x100) by (bit_vector);
        self.memory.set(at, (word & 0xff) as u8);
        self.memory.set(at + 1, ((word >> 8) & 0xff) as u8);
        self.memory.set(at + 2, ((word >> 16) & 0xff) as u8);
        self.memory.set(at + 3, ((word >> 24) & 0xff) as u8);
        self.memory.set(at + 4, ((word >> 32) & 0xff) as u8);
        self.memory.set(at + 5, ((word >> 40) & 0xff) as u8);
        self.memory.set(at + 6, ((word >> 48) & 0xff) as u8);
        self.memory.set(at + 7, ((word >> 56) & 0xff) as u8);
    }

    /// Whether the translation of virtual page `page` is cached.
    pub fn is_cached(&self, page: u64) -> (hit: bool)
        ensures
            hit == self.cached().contains(page),
    {
        let mut i: usize = 0;
        while i < self.cache.len()
            invariant
                i <= self.cache.len(),
                forall|j: int| 0 <= j < i ==> self.cache@[j] != page,
            decreases self.cache.len() - i,
        {
            if self.cache[i] == page {
                return true;
            }
            i = i + 1;
        }
        false
    }

    /// Caches the translation of virtual page `page`, as a use of the page does.
    pub fn cache_translation(&mut self, page: u64)
        ensures
            final(self).cached() == old(self).cached().insert(page),
            final(self).register() == old(self).register(),
            final(self).memory() == old(self).memory(),
    {
        if !self.is_cached(page) {
            proof {
                self.cache@.lemma_push_to_set_commute(page);
            }
            self.cache.push(page);
        }
    }

    /// Drops the cached translation of virtual page `page`, if there is one.
    pub fn flush_translation(&mut self, page: u64)
        ensures
            final(self).cached() == old(self).cached().remove(page),
            final(self).register() == old(self).register(),
            final(self).memory() == old(self).memory(),
    {
        let mut kept: Vec<u64> = Vec::new();
        let mut i: usize = 0;
        while i < self.cache.len()
            invariant
                i <= self.cache.len(),
                kept@.to_set() == self.cache@.subrange(0, i as int).to_set().remove(page),
            decreases self.cache.len() - i,
        {
            let entry = self.cache[i];
            proof {
                let seen = self.cache@.subrange(0, i as int);
                assert(self.cache@.subrange(0, i + 1) == seen.push(entry));
                seen.lemma_push_to_set_commute(entry);
                kept@.lemma_push_to_set_commute(entry);
                assert(seen.to_set().insert(entry).remove(page) =~= if entry == page {
                    seen.to_set().remove(page)
                } else {
                    seen.to_set().remove(page).insert(entry)
                });
            }
            if entry != page {
                kept.push(entry);
            }
            i = i + 1;
        }
        assert(self.cache@.subrange(0, i as int) == self.cache@);
        self.cache = kept;
    }
}

} // verus!
