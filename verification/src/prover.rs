use crate::error::{BoundFault, Error};
use crate::level::{
    level_config, resolve, LevelConfig, MachineConfigType, ProverBackend, ProverLevel,
};
use crate::paths::{path_stem, paths_of, program_paths, strip_bin_suffix, ProgramPaths};
use vstd::prelude::*;

verus! {

/// The RAM bound of a CPU proof for which the caller names none: 1 GiB.
pub const DEFAULT_RAM_BOUND_BYTES: usize = 0x4000_0000;

/// The cycle bound under which a program is run to measure its cycles.
pub const DEFAULT_CPU_CYCLE_BOUND: u64 = 0xFFFF_FFFF;

/// What the GPU prover is built with.
#[derive(Clone, Debug, PartialEq, Eq)]
pub struct GpuProverPlan {
    /// The program's path without `.bin`.
    pub base_path: String,
    /// The size of the thread pool, where the caller overrides the prover's own.
    pub max_thread_pool_threads: Option<usize>,
    /// The number of replay workers, where the caller overrides the prover's own.
    pub replay_worker_threads_count: Option<usize>,
    pub level: ProverLevel,
    pub config: LevelConfig,
}

/// What a proving request comes to, before any file is looked at.
#[derive(Clone, Debug, PartialEq, Eq)]
pub enum ProofPlan {
    Gpu(GpuProverPlan),
    /// A CPU proof of the program in these two files.
    Cpu(ProgramPaths),
}

/// Where the cycle bound of a CPU proof comes from.
#[derive(Clone, Copy, Debug, PartialEq, Eq, Structural)]
pub enum CycleSource {
    /// The caller named it.
    Given(u64),
    /// The program is first run under `bound` to count its cycles.
    Measured { bound: u64 },
}

/// What the CPU proving routine is called with: the machine type of the base
/// level, the bounds and the worker count.
#[derive(Clone, Copy, Debug, PartialEq, Eq, Structural)]
pub struct CpuProverConfiguration {
    pub machine: MachineConfigType,
    pub cycles_bound: u64,
    pub ram_bound: usize,
    pub threads: usize,
}

/// Whether `plan` builds the GPU prover of `level` for the program at `path`
/// with the worker count `worker_threads`.
pub open spec fn is_gpu_plan(
    plan: GpuProverPlan,
    path: Seq<char>,
    worker_threads: Option<usize>,
    level: ProverLevel,
) -> bool {
    &&& plan.base_path@ == path_stem(path)
    &&& plan.max_thread_pool_threads == worker_threads
    &&& plan.replay_worker_threads_count == worker_threads
    &&& plan.level == level
    &&& plan.config == level_config(level)
}

/// The RAM bound of a CPU proof: the caller's, or the default.
pub open spec fn ram_bound_of(ram_bound: Option<usize>) -> usize {
    match ram_bound {
        Some(n) => n,
        None => DEFAULT_RAM_BOUND_BYTES,
    }
}

/// The worker count of a CPU proof: the caller's, else what the host offers,
/// else one.
pub open spec fn threads_of(worker_threads: Option<usize>, host_parallelism: Option<usize>) -> usize {
    match worker_threads {
        Some(n) => n,
        None => match host_parallelism {
            Some(n) => n,
            None => 1,
        },
    }
}

/// The configuration of a CPU proof, or the bound that it is refused for: a
/// cycle bound of zero first, then a RAM bound below the ROM's size.
pub open spec fn cpu_configuration(
    cycles_bound: u64,
    ram_bound: Option<usize>,
    rom_bytes: usize,
    worker_threads: Option<usize>,
    host_parallelism: Option<usize>,
) -> Result<CpuProverConfiguration, Error> {
    if cycles_bound == 0 {
        Err(Error::InvalidBound(BoundFault::Cycles))
    } else if ram_bound_of(ram_bound) < rom_bytes {
        Err(Error::InvalidBound(BoundFault::Ram))
    } else {
        Ok(
            CpuProverConfiguration {
                machine: level_config(ProverLevel::Base).machine,
                cycles_bound,
                ram_bound: ram_bound_of(ram_bound),
                threads: threads_of(worker_threads, host_parallelism),
            },
        )
    }
}

/// What the GPU prover of `level` is built with for the program at
/// `app_bin_path`, a path that arrives as `None` where it is not valid UTF-8.
/// A worker count, where one is given, sets both the thread pool's size and
/// the number of replay workers.
pub fn create_unrolled_prover(
    app_bin_path: Option<&str>,
    worker_threads: Option<usize>,
    level: ProverLevel,
) -> (result: Result<GpuProverPlan, Error>)
    ensures
        app_bin_path is None ==> result == Err::<GpuProverPlan, Error>(Error::NonUtf8Path),
        app_bin_path matches Some(p) ==> result is Ok && is_gpu_plan(
            result->Ok_0,
            p@,
            worker_threads,
            level,
        ),
{
    match strip_bin_suffix(app_bin_path) {
        Err(e) => Err(e),
        Ok(base_path) => Ok(
            GpuProverPlan {
                base_path,
                max_thread_pool_threads: worker_threads,
                replay_worker_threads_count: worker_threads,
                level,
                config: resolve(level),
            },
        ),
    }
}

/// The two files of the program that a CPU proof is made of. The CPU backend
/// proves the base level only: any other level is refused before the path is
/// looked at.
pub fn prove_cpu(app_bin_path: Option<&str>, level: ProverLevel) -> (result: Result<
    ProgramPaths,
    Error,
>)
    ensures
        level != ProverLevel::Base ==> result == Err::<ProgramPaths, Error>(
            Error::UnsupportedCombination,
        ),
        level == ProverLevel::Base && app_bin_path is None ==> result == Err::<
            ProgramPaths,
            Error,
        >(Error::NonUtf8Path),
        level == ProverLevel::Base && app_bin_path is Some ==> result is Ok && paths_of(
            app_bin_path->Some_0@,
            result->Ok_0,
        ),
{
    match level {
        ProverLevel::Base => match strip_bin_suffix(app_bin_path) {
            Err(e) => Err(e),
            Ok(stem) => Ok(program_paths(stem.as_str())),
        },
        ProverLevel::RecursionUnrolled | ProverLevel::RecursionUnified => Err(
            Error::UnsupportedCombination,
        ),
    }
}

/// What a proving request comes to, by its backend. No file is looked at.
pub fn prove(
    app_bin_path: Option<&str>,
    backend: ProverBackend,
    worker_threads: Option<usize>,
    level: ProverLevel,
) -> (result: Result<ProofPlan, Error>)
    ensures
        backend == ProverBackend::Cpu && level != ProverLevel::Base ==> result == Err::<
            ProofPlan,
            Error,
        >(Error::UnsupportedCombination),
        (backend == ProverBackend::Gpu || level == ProverLevel::Base) && app_bin_path is None
            ==> result == Err::<ProofPlan, Error>(Error::NonUtf8Path),
        backend == ProverBackend::Gpu && app_bin_path is Some ==> (result matches Ok(
            ProofPlan::Gpu(plan),
        ) && is_gpu_plan(plan, app_bin_path->Some_0@, worker_threads, level)),
        backend == ProverBackend::Cpu && level == ProverLevel::Base && app_bin_path is Some ==> (
        result matches Ok(ProofPlan::Cpu(paths)) && paths_of(app_bin_path->Some_0@, paths)),
{
    match backend {
        ProverBackend::Gpu => match create_unrolled_prover(app_bin_path, worker_threads, level) {
            Err(e) => Err(e),
            Ok(plan) => Ok(ProofPlan::Gpu(plan)),
        },
        ProverBackend::Cpu => match prove_cpu(app_bin_path, level) {
            Err(e) => Err(e),
            Ok(paths) => Ok(ProofPlan::Cpu(paths)),
        },
    }
}

/// Accepts a program whose two files are there: a missing binary is reported
/// first, then a missing instruction text.
pub fn require_program_files(bin_exists: bool, text_exists: bool) -> (result: Result<(), Error>)
    ensures
        !bin_exists ==> result == Err::<(), Error>(Error::BinaryNotFound),
        bin_exists && !text_exists ==> result == Err::<(), Error>(Error::TextNotFound),
        bin_exists && text_exists ==> result is Ok,
{
    if !bin_exists {
        Err(Error::BinaryNotFound)
    } else if !text_exists {
        Err(Error::TextNotFound)
    } else {
        Ok(())
    }
}

/// Where the cycle bound of a CPU proof comes from: the caller, or a run of
/// the program that counts its cycles.
pub fn cycle_source(cycles: Option<u64>) -> (source: CycleSource)
    ensures
        source == match cycles {
            Some(n) => CycleSource::Given(n),
            None => CycleSource::Measured { bound: DEFAULT_CPU_CYCLE_BOUND },
        },
{
    match cycles {
        Some(n) => CycleSource::Given(n),
        None => CycleSource::Measured { bound: DEFAULT_CPU_CYCLE_BOUND },
    }
}

/// The RAM bound of a CPU proof: the caller's, or the default of 1 GiB.
pub fn ram_bound_or_default(ram_bound: Option<usize>) -> (bound: usize)
    ensures
        bound == ram_bound_of(ram_bound),
{
    match ram_bound {
        Some(n) => n,
        None => DEFAULT_RAM_BOUND_BYTES,
    }
}

/// The configuration of a CPU proof with the cycle bound `cycles_bound`,
/// given or measured, on a machine whose ROM takes `rom_bytes` bytes and
/// whose host offers `host_parallelism` threads, where it can tell.
pub fn cpu_prover_configuration(
    cycles_bound: u64,
    ram_bound: Option<usize>,
    rom_bytes: usize,
    worker_threads: Option<usize>,
    host_parallelism: Option<usize>,
) -> (result: Result<CpuProverConfiguration, Error>)
    ensures
        result == cpu_configuration(
            cycles_bound,
            ram_bound,
            rom_bytes,
            worker_threads,
            host_parallelism,
        ),
{
    if cycles_bound == 0 {
        return Err(Error::InvalidBound(BoundFault::Cycles));
    }
    let ram: usize = ram_bound_or_default(ram_bound);
    if ram < rom_bytes {
        return Err(Error::InvalidBound(BoundFault::Ram));
    }
    let threads: usize = match worker_threads {
        Some(n) => n,
        None => match host_parallelism {
            Some(n) => n,
            None => 1,
        },
    };
    Ok(
        CpuProverConfiguration {
            machine: resolve(ProverLevel::Base).machine,
            cycles_bound,
            ram_bound: ram,
            threads,
        },
    )
}

/// What the caller asked of a CPU proof, and what the machine offers.
#[derive(Clone, Copy, Debug, PartialEq, Eq, Structural)]
pub struct CpuProofRequest {
    pub cycles: Option<u64>,
    pub ram_bound: Option<usize>,
    pub worker_threads: Option<usize>,
    /// The size of the machine's ROM, in bytes.
    pub rom_bytes: usize,
    /// The number of threads that the host offers, where it can tell.
    pub host_parallelism: Option<usize>,
}

/// What is to be done next for a CPU proof.
#[derive(Clone, Debug, PartialEq, Eq)]
pub enum CpuProofStep {
    /// Look whether the program's two files are there.
    CheckFiles(ProgramPaths),
    /// Run the program under `bound` and count its cycles.
    MeasureCycles { bound: u64 },
    /// Call the proving routine with this configuration.
    Prove(CpuProverConfiguration),
    /// Give up with this error.
    Fail(Error),
}

/// What the last step of a CPU proof found.
#[derive(Clone, Copy, Debug, PartialEq, Eq, Structural)]
pub enum CpuProofEvent {
    FilesChecked { bin_exists: bool, text_exists: bool },
    CyclesMeasured(u64),
}

/// The step that follows once the cycle bound is known.
pub open spec fn step_with_cycles(request: CpuProofRequest, cycles_bound: u64) -> CpuProofStep {
    match cpu_configuration(
        cycles_bound,
        request.ram_bound,
        request.rom_bytes,
        request.worker_threads,
        request.host_parallelism,
    ) {
        Ok(config) => CpuProofStep::Prove(config),
        Err(e) => CpuProofStep::Fail(e),
    }
}

/// The step that follows `step` on `event`. A missing binary is reported
/// before a missing instruction text. Where the caller named the cycles, both
/// bounds are checked at once. Where the caller named none, a RAM bound below
/// the ROM's size is refused before anything is run; only then are the cycles
/// measured, and the measured bound is checked. An event that does not answer
/// the step leaves it as it is.
pub open spec fn step_after(
    request: CpuProofRequest,
    step: CpuProofStep,
    event: CpuProofEvent,
) -> CpuProofStep {
    match (step, event) {
        (CpuProofStep::CheckFiles(_), CpuProofEvent::FilesChecked { bin_exists, text_exists }) => {
            if !bin_exists {
                CpuProofStep::Fail(Error::BinaryNotFound)
            } else if !text_exists {
                CpuProofStep::Fail(Error::TextNotFound)
            } else {
                match request.cycles {
                    Some(n) => step_with_cycles(request, n),
                    None => if ram_bound_of(request.ram_bound) < request.rom_bytes {
                        CpuProofStep::Fail(Error::InvalidBound(BoundFault::Ram))
                    } else {
                        CpuProofStep::MeasureCycles { bound: DEFAULT_CPU_CYCLE_BOUND }
                    },
                }
            }
        },
        (CpuProofStep::MeasureCycles { .. }, CpuProofEvent::CyclesMeasured(n)) => step_with_cycles(
            request,
            n,
        ),
        _ => step,
    }
}

fn cpu_proof_with_cycles(request: &CpuProofRequest, cycles_bound: u64) -> (step: CpuProofStep)
    ensures
        step == step_with_cycles(*request, cycles_bound),
{
    match cpu_prover_configuration(
        cycles_bound,
        request.ram_bound,
        request.rom_bytes,
        request.worker_threads,
        request.host_parallelism,
    ) {
        Ok(config) => CpuProofStep::Prove(config),
        Err(e) => CpuProofStep::Fail(e),
    }
}

/// The first step of a CPU proof of `level` for the program at
/// `app_bin_path`: to look for the program's files, unless the level or the
/// path is refused.
pub fn cpu_proof_start(app_bin_path: Option<&str>, level: ProverLevel) -> (step: CpuProofStep)
    ensures
        level != ProverLevel::Base ==> step == CpuProofStep::Fail(Error::UnsupportedCombination),
        level == ProverLevel::Base && app_bin_path is None ==> step == CpuProofStep::Fail(
            Error::NonUtf8Path,
        ),
        level == ProverLevel::Base && app_bin_path is Some ==> (step matches CpuProofStep::CheckFiles(
            paths,
        ) && paths_of(app_bin_path->Some_0@, paths)),
{
    match prove_cpu(app_bin_path, level) {
        Ok(paths) => CpuProofStep::CheckFiles(paths),
        Err(e) => CpuProofStep::Fail(e),
    }
}

/// The step of a CPU proof that follows `step` on `event`.
pub fn cpu_proof_next(request: &CpuProofRequest, step: CpuProofStep, event: CpuProofEvent) -> (next:
    CpuProofStep)
    ensures
        next == step_after(*request, step, event),
{
    match step {
        CpuProofStep::CheckFiles(paths) => match event {
            CpuProofEvent::FilesChecked { bin_exists, text_exists } => {
                match require_program_files(bin_exists, text_exists) {
                    Err(e) => CpuProofStep::Fail(e),
                    Ok(()) => match cycle_source(request.cycles) {
                        CycleSource::Given(n) => cpu_proof_with_cycles(request, n),
                        CycleSource::Measured { bound } => {
                            if ram_bound_or_default(request.ram_bound) < request.rom_bytes {
                                CpuProofStep::Fail(Error::InvalidBound(BoundFault::Ram))
                            } else {
                                CpuProofStep::MeasureCycles { bound }
                            }
                        },
                    },
                }
            },
            CpuProofEvent::CyclesMeasured(_) => CpuProofStep::CheckFiles(paths),
        },
        CpuProofStep::MeasureCycles { bound } => match event {
            CpuProofEvent::CyclesMeasured(n) => cpu_proof_with_cycles(request, n),
            CpuProofEvent::FilesChecked { .. } => CpuProofStep::MeasureCycles { bound },
        },
        CpuProofStep::Prove(config) => CpuProofStep::Prove(config),
        CpuProofStep::Fail(e) => CpuProofStep::Fail(e),
    }
}

/// Once a CPU proof has come to its proving routine or to an error, no event
/// moves it.
pub proof fn lemma_cpu_proof_settles(
    request: CpuProofRequest,
    step: CpuProofStep,
    event: CpuProofEvent,
)
    requires
        step is Prove || step is Fail,
    ensures
        step_after(request, step, event) == step,
{
}

/// A CPU proof reaches its proving routine only with a cycle bound above
/// zero and a RAM bound that holds the ROM.
pub proof fn lemma_cpu_proof_bounds(
    request: CpuProofRequest,
    step: CpuProofStep,
    event: CpuProofEvent,
)
    requires
        !(step is Prove),
        step_after(request, step, event) is Prove,
    ensures
        step_after(request, step, event)->Prove_0.cycles_bound > 0,
        step_after(request, step, event)->Prove_0.ram_bound >= request.rom_bytes,
        step_after(request, step, event)->Prove_0.ram_bound == ram_bound_of(request.ram_bound),
        step_after(request, step, event)->Prove_0.machine == level_config(
            ProverLevel::Base,
        ).machine,
        step_after(request, step, event)->Prove_0.threads == threads_of(
            request.worker_threads,
            request.host_parallelism,
        ),
{
}

/// A program is run to measure its cycles only where the caller named no
/// cycle bound, both files are there and the RAM bound holds the ROM: no
/// request that the bounds already refuse costs a run.
pub proof fn lemma_measured_only_when_needed(
    request: CpuProofRequest,
    step: CpuProofStep,
    event: CpuProofEvent,
)
    requires
        !(step is MeasureCycles),
        step_after(request, step, event) is MeasureCycles,
    ensures
        step is CheckFiles,
        event == (CpuProofEvent::FilesChecked { bin_exists: true, text_exists: true }),
        request.cycles is None,
        ram_bound_of(request.ram_bound) >= request.rom_bytes,
        step_after(request, step, event) == (CpuProofStep::MeasureCycles {
            bound: DEFAULT_CPU_CYCLE_BOUND,
        }),
{
}

/// A RAM bound is accepted exactly from the ROM's size on: a bound of that
/// size passes, and one byte less is refused.
pub proof fn lemma_ram_bound_threshold(
    cycles_bound: u64,
    rom_bytes: usize,
    worker_threads: Option<usize>,
    host_parallelism: Option<usize>,
)
    requires
        cycles_bound > 0,
        rom_bytes > 0,
    ensures
        cpu_configuration(
            cycles_bound,
            Some(rom_bytes),
            rom_bytes,
            worker_threads,
            host_parallelism,
        ) is Ok,
        cpu_configuration(
            cycles_bound,
            Some((rom_bytes - 1) as usize),
            rom_bytes,
            worker_threads,
            host_parallelism,
        ) == Err::<CpuProverConfiguration, Error>(Error::InvalidBound(BoundFault::Ram)),
{
}

} // verus!
