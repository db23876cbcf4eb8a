use crate::paths::{derive_text_path, path_with_extension};
use crate::sim::SimulationOutcome;
use vstd::prelude::*;

verus! {

/// The instruction text that a JIT run reads: the one that is named, or the
/// binary's path with the extension `text`.
pub fn text_path_for(bin_path: &str, text_path: Option<String>) -> (out: String)
    ensures
        out@ == match text_path {
            Some(p) => p@,
            None => path_with_extension(bin_path@, seq!['t', 'e', 'x', 't']),
        },
{
    match text_path {
        Some(p) => p,
        None => derive_text_path(bin_path),
    }
}

/// The cycle bound that the JIT engine is given. It counts in 32 bits: a
/// larger bound cannot be handed to it, and the run is then unbounded.
pub fn jit_cycle_bound(cycles: u64) -> (bound: Option<u32>)
    ensures
        cycles <= u32::MAX ==> bound == Some(cycles as u32),
        cycles > u32::MAX ==> bound is None,
{
    if cycles <= 0xFFFF_FFFF {
        Some(cycles as u32)
    } else {
        None
    }
}

/// The cycles that lie between two timestamps of the engine, which advances
/// its clock by `step` each cycle.
pub open spec fn elapsed_cycles(timestamp: u64, initial: u64, step: u64) -> int
    recommends
        initial <= timestamp,
        step > 0,
{
    (timestamp - initial) / (step as int)
}

/// The outcome of a JIT run, from the registers and the clock of the final
/// state. The engine does not tell a halt from an exhausted bound: the run is
/// always reported as having reached its end.
pub fn jit_outcome(registers: [u32; 32], timestamp: u64, initial: u64, step: u64) -> (outcome:
    SimulationOutcome)
    requires
        initial <= timestamp,
        step > 0,
    ensures
        outcome.registers == registers,
        outcome.reached_end,
        outcome.cycles_executed == elapsed_cycles(timestamp, initial, step),
{
    let cycles: u64 = (timestamp - initial) / step;
    SimulationOutcome { registers, cycles_executed: cycles, reached_end: true }
}

/// The word that four bytes stand for, least significant byte first.
pub open spec fn le_word(bytes: Seq<u8>, i: int) -> u32 {
    (bytes[4 * i] as int + bytes[4 * i + 1] as int * 0x100 + bytes[4 * i + 2] as int * 0x1_0000
        + bytes[4 * i + 3] as int * 0x100_0000) as u32
}

/// The contents of a file read as 32-bit words, least significant byte first.
pub open spec fn le_words(bytes: Seq<u8>) -> Seq<u32> {
    Seq::new((bytes.len() / 4) as nat, |i: int| le_word(bytes, i))
}

/// Reads the bytes of a program file as 32-bit little-endian words. A file
/// whose length is not a multiple of four holds no sequence of words.
pub fn read_u32_words(bytes: &[u8]) -> (words: Option<Vec<u32>>)
    ensures
        words is Some <==> bytes@.len() % 4 == 0,
        words matches Some(w) ==> w@ == le_words(bytes@),
{
    let len: usize = bytes.len();
    if len % 4 != 0 {
        return None;
    }
    let count: usize = len / 4;
    let mut words: Vec<u32> = Vec::new();
    let mut i: usize = 0;
    while i < count
        invariant
            len == bytes@.len(),
            len % 4 == 0,
            count == len / 4,
            i <= count,
            words.len() == i,
            forall|j: int| 0 <= j < i ==> words[j] == le_word(bytes@, j),
        decreases count - i,
    {
        let at: usize = 4 * i;
        let b0: u32 = bytes[at] as u32;
        let b1: u32 = bytes[at + 1] as u32;
        let b2: u32 = bytes[at + 2] as u32;
        let b3: u32 = bytes[at + 3] as u32;
        words.push(b0 + b1 * 0x100 + b2 * 0x1_0000 + b3 * 0x100_0000);
        i += 1;
    }
    assert(words@ =~= le_words(bytes@));
    Some(words)
}

} // verus!
