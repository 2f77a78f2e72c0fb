//! The 64 KiB byte-addressable memory of the machine, and the little-endian
//! encoding of 16-bit words in it.

use vstd::prelude::*;

verus! {

/// Size of the address space in bytes (64 KiB).
pub const MAX_MEM: usize = 1024 * 64;

/// What is left of a cycle budget once `cost` cycles are charged to it.
/// A budget never goes below zero: work that costs more than what is left
/// is still done in full and leaves the budget at zero.
pub open spec fn charge(budget: nat, cost: nat) -> nat {
    if budget >= cost {
        (budget - cost) as nat
    } else {
        0
    }
}

/// Bits 0 to 7 of a 16-bit word.
pub open spec fn low_byte(word: u16) -> u8 {
    (word & 0xFF) as u8
}

/// Bits 8 to 15 of a 16-bit word.
pub open spec fn high_byte(word: u16) -> u8 {
    (word >> 8) as u8
}

/// The 16-bit word whose low byte is `low` and whose high byte is `high`.
pub open spec fn word_of(low: u8, high: u8) -> u16 {
    ((high as u16) << 8) | (low as u16)
}

/// The word that `bytes` holds at `address`, low byte first.
pub open spec fn word_at(bytes: Seq<u8>, address: int) -> u16 {
    word_of(bytes[address], bytes[address + 1])
}

/// `bytes` with `word` stored at `address`, low byte first.
pub open spec fn with_word(bytes: Seq<u8>, address: int, word: u16) -> Seq<u8> {
    bytes.update(address, low_byte(word)).update(address + 1, high_byte(word))
}

/// A budget that covers the cost goes down by exactly the cost; one that
/// does not goes to zero.
pub proof fn lemma_charge_exact(budget: nat, cost: nat)
    ensures
        budget >= cost ==> charge(budget, cost) == budget - cost,
        budget < cost ==> charge(budget, cost) == 0,
        charge(budget, cost) <= budget,
{
}

/// Charging a budget twice is charging it once with the sum.
pub proof fn lemma_charge_twice(budget: nat, first: nat, second: nat)
    ensures
        charge(charge(budget, first), second) == charge(budget, first + second),
{
}

/// The two bytes of a word are its remainder and its quotient by 256.
pub proof fn lemma_bytes_of_word(word: u16)
    ensures
        low_byte(word) == word % 256,
        high_byte(word) == word / 256,
{
    assert(word & 0xFF == word % 256) by (bit_vector);
    assert(word >> 8 == word / 256) by (bit_vector);
}

/// A word is its high byte times 256 plus its low byte.
pub proof fn lemma_word_of_bytes(low: u8, high: u8)
    ensures
        word_of(low, high) == high * 256 + low,
{
    assert(((high as u16) << 8) | (low as u16) == high * 256 + low) by (bit_vector);
}

/// Splitting a word into bytes and joining them again gives the word back,
/// and the other way round.
pub proof fn lemma_word_round_trip(word: u16, low: u8, high: u8)
    ensures
        word_of(low_byte(word), high_byte(word)) == word,
        low_byte(word_of(low, high)) == low,
        high_byte(word_of(low, high)) == high,
{
    assert((((word >> 8) as u8) as u16) << 8 | (((word & 0xFF) as u8) as u16) == word)
        by (bit_vector);
    assert((((((high as u16) << 8) | (low as u16)) & 0xFF) as u8) == low) by (bit_vector);
    assert((((((high as u16) << 8) | (low as u16)) >> 8) as u8) == high) by (bit_vector);
}

/// A word stored at an address is the word found there afterwards, and no
/// other byte changes.
pub proof fn lemma_word_at_with_word(bytes: Seq<u8>, address: int, word: u16)
    requires
        0 <= address,
        address + 1 < bytes.len(),
    ensures
        word_at(with_word(bytes, address, word), address) == word,
        with_word(bytes, address, word).len() == bytes.len(),
        forall|i: int|
            0 <= i < bytes.len() && i != address && i != address + 1 ==> with_word(
                bytes,
                address,
                word,
            )[i] == bytes[i],
{
    lemma_word_round_trip(word, 0, 0);
}

/// 6502 memory: one array that holds program, data and stack.
pub struct Mem {
    data: [u8; MAX_MEM],
}

impl View for Mem {
    type V = Seq<u8>;

    closed spec fn view(&self) -> Seq<u8> {
        self.data@
    }
}

impl Mem {
    /// The contents of a memory that holds zero at every address.
    pub open spec fn zeroed() -> Seq<u8> {
        Seq::new(MAX_MEM as nat, |i: int| 0u8)
    }

    /// Every memory holds exactly `MAX_MEM` bytes.
    pub proof fn lemma_len(&self)
        ensures
            self@.len() == MAX_MEM,
    {
    }

    /// Creates a memory with every byte set to zero.
    pub fn new() -> (mem: Self)
        ensures
            mem@ == Self::zeroed(),
    {
        Self { data: [0; MAX_MEM] }
    }

    /// Sets every byte to zero.
    pub fn initialize(&mut self)
        ensures
            final(self)@ == Self::zeroed(),
    {
        self.data = [0; MAX_MEM];
    }

    /// Returns the byte at `address`.
    pub fn read(&self, address: usize) -> (byte: u8)
        requires
            address < MAX_MEM,
        ensures
            byte == self@[address as int],
    {
        self.data[address]
    }

    /// Stores `value` at `address` and leaves every other byte as it was.
    pub fn write(&mut self, address: usize, value: u8)
        requires
            address < MAX_MEM,
        ensures
            final(self)@ == old(self)@.update(address as int, value),
    {
        self.data[address] = value;
    }

    /// Writes a 16-bit word in little-endian order: the low byte at
    /// `address`, the high byte at `address + 1`. Charges two cycles.
    pub fn write_word(&mut self, value: u16, address: u32, cycles: &mut u32)
        requires
            address + 1 < MAX_MEM,
        ensures
            final(self)@ == with_word(old(self)@, address as int, value),
            *final(cycles) == charge(*old(cycles) as nat, 2),
    {
        self.data[address as usize] = (value & 0xFF) as u8;
        self.data[(address + 1) as usize] = (value >> 8) as u8;
        *cycles = cycles.saturating_sub(2);
    }
}

} // verus!
