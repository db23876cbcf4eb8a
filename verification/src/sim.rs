use crate::error::Error;
use crate::paths::{derive_elf_path, elf_suffix, path_stem};
use vstd::prelude::*;

verus! {

/// The cycle bound of a run for which the caller names none.
pub const DEFAULT_CYCLES: u64 = 90_000_000_000;

/// What an execution of a program left behind.
#[derive(Debug)]
pub struct SimulationOutcome {
    pub registers: [u32; 32],
    pub cycles_executed: u64,
    pub reached_end: bool,
}

/// A file that a run needs to find.
#[derive(Clone, Copy, Debug, PartialEq, Eq, Structural)]
pub enum RequiredFile {
    Binary,
    Text,
    Symbols,
}

impl RequiredFile {
    /// The error that reports this file as missing.
    pub open spec fn missing(self) -> Error {
        match self {
            RequiredFile::Binary => Error::BinaryNotFound,
            RequiredFile::Text => Error::TextNotFound,
            RequiredFile::Symbols => Error::SymbolsNotFound,
        }
    }
}

/// The file that the symbols of a flamegraph are read from.
#[derive(Clone, Debug, PartialEq, Eq)]
pub enum SymbolsPath<P> {
    /// The file that the caller named, as it was named.
    Given(P),
    /// The program's stem with `.elf`.
    Derived(String),
}

/// How the simulator is asked to sample a run for a flamegraph. The paths
/// that the caller names are carried as they are, whatever their type.
#[derive(Clone, Debug, PartialEq, Eq)]
pub struct ProfilerPlan<P> {
    /// The file the symbols are read from.
    pub symbols_path: SymbolsPath<P>,
    /// The file the flamegraph is written to.
    pub output: P,
    /// One sample is taken every this many cycles.
    pub frequency_recip: usize,
    /// Whether the call graph is inverted.
    pub reverse_graph: bool,
}

/// One of the registers that carry a program's output.
#[derive(Clone, Copy, Debug, PartialEq, Eq, Structural)]
pub struct OutputRegister {
    pub index: usize,
    pub value: u32,
}

/// What is reported of a finished run.
#[derive(Clone, Debug, PartialEq, Eq)]
pub struct RunReport {
    pub cycles_executed: u64,
    pub reached_end: bool,
    /// The registers x10 to x17, in this order.
    pub outputs: Vec<OutputRegister>,
}

/// The first of the registers that carry a program's output.
pub const FIRST_OUTPUT_REGISTER: usize = 10;

/// The number of registers that carry a program's output.
pub const OUTPUT_REGISTERS: usize = 8;

/// The cycle bound of a run: the caller's, or the default.
pub fn cycle_limit(cycles: Option<u64>) -> (limit: u64)
    ensures
        limit == match cycles {
            Some(n) => n,
            None => DEFAULT_CYCLES,
        },
{
    match cycles {
        Some(n) => n,
        None => DEFAULT_CYCLES,
    }
}

/// Accepts a required file that is there, and reports one that is missing
/// by the error of its kind.
pub fn require_file(file: RequiredFile, exists: bool) -> (result: Result<(), Error>)
    ensures
        exists ==> result is Ok,
        !exists ==> result == Err::<(), Error>(file.missing()),
{
    if exists {
        Ok(())
    } else {
        match file {
            RequiredFile::Binary => Err(Error::BinaryNotFound),
            RequiredFile::Text => Err(Error::TextNotFound),
            RequiredFile::Symbols => Err(Error::SymbolsNotFound),
        }
    }
}

/// Whether `plan` samples as asked and writes to `output`.
pub open spec fn samples_as_asked<P>(
    plan: ProfilerPlan<P>,
    output: P,
    sampling_rate: usize,
    inverse: bool,
) -> bool {
    &&& plan.output == output
    &&& plan.frequency_recip == sampling_rate
    &&& plan.reverse_graph == inverse
}

/// The profiling configuration of a flamegraph run. The symbols are read
/// from `elf_path`; where none is given, from the program's stem with `.elf`,
/// for which the program's path has to be text: one that is not valid UTF-8
/// arrives as `None` and is refused.
pub fn profiler_diagnostics<P>(
    app_bin: Option<&str>,
    elf_path: Option<P>,
    output: P,
    sampling_rate: usize,
    inverse: bool,
) -> (result: Result<ProfilerPlan<P>, Error>)
    ensures
        elf_path is None && app_bin is None ==> result == Err::<ProfilerPlan<P>, Error>(
            Error::NonUtf8Path,
        ),
        elf_path is Some || app_bin is Some ==> result is Ok && samples_as_asked(
            result->Ok_0,
            output,
            sampling_rate,
            inverse,
        ),
        elf_path is Some ==> result->Ok_0.symbols_path == SymbolsPath::Given(elf_path->Some_0),
        elf_path is None && app_bin is Some ==> (result->Ok_0.symbols_path matches SymbolsPath::Derived(
            path,
        ) && path@ == path_stem(app_bin->Some_0@) + elf_suffix()),
{
    let symbols_path = match elf_path {
        Some(p) => SymbolsPath::Given(p),
        None => match app_bin {
            Some(bin) => SymbolsPath::Derived(derive_elf_path(bin)),
            None => {
                return Err(Error::NonUtf8Path);
            },
        },
    };
    Ok(ProfilerPlan { symbols_path, output, frequency_recip: sampling_rate, reverse_graph: inverse })
}

/// The number of cycles that a simulated run is reported with: one more than
/// the last cycle it completed where the program halted (the largest number
/// where that does not fit), and the bound where it did not.
pub open spec fn simulated_cycles(reached_end: bool, last_cycle: u64, bound: u64) -> u64 {
    if !reached_end {
        bound
    } else if last_cycle == u64::MAX {
        u64::MAX
    } else {
        (last_cycle + 1) as u64
    }
}

/// The outcome of a run of the simulator under the cycle bound `bound`,
/// from what the simulator handed back.
pub fn simulated_outcome(
    registers: [u32; 32],
    reached_end: bool,
    last_cycle: u64,
    bound: u64,
) -> (outcome: SimulationOutcome)
    ensures
        outcome.registers == registers,
        outcome.reached_end == reached_end,
        outcome.cycles_executed == simulated_cycles(reached_end, last_cycle, bound),
{
    let cycles_executed: u64 = if reached_end {
        if last_cycle == u64::MAX {
            u64::MAX
        } else {
            last_cycle + 1
        }
    } else {
        bound
    };
    SimulationOutcome { registers, cycles_executed, reached_end }
}

/// What is reported of a run: the cycles, whether the program halted, and
/// the eight output registers from x10 on, each with its number.
pub fn report_run_outcome(outcome: &SimulationOutcome) -> (report: RunReport)
    ensures
        report.cycles_executed == outcome.cycles_executed,
        report.reached_end == outcome.reached_end,
        report.outputs.len() == OUTPUT_REGISTERS,
        forall|i: int|
            0 <= i < OUTPUT_REGISTERS ==> (#[trigger] report.outputs[i]) == (OutputRegister {
                index: (FIRST_OUTPUT_REGISTER + i) as usize,
                value: outcome.registers[FIRST_OUTPUT_REGISTER + i],
            }),
{
    let mut outputs: Vec<OutputRegister> = Vec::new();
    let mut i: usize = 0;
    while i < OUTPUT_REGISTERS
        invariant
            i <= OUTPUT_REGISTERS,
            outputs.len() == i,
            forall|j: int|
                0 <= j < i ==> (#[trigger] outputs[j]) == (OutputRegister {
                    index: (FIRST_OUTPUT_REGISTER + j) as usize,
                    value: outcome.registers[FIRST_OUTPUT_REGISTER + j],
                }),
        decreases OUTPUT_REGISTERS - i,
    {
        let index: usize = FIRST_OUTPUT_REGISTER + i;
        outputs.push(OutputRegister { index, value: outcome.registers[index] });
        i += 1;
    }
    RunReport { cycles_executed: outcome.cycles_executed, reached_end: outcome.reached_end, outputs }
}

} // verus!
