use vstd::prelude::*;

verus! {

/// The circuit layer that a proof or a verification key targets, from the
/// innermost to the outermost.
#[derive(Clone, Copy, Debug, PartialEq, Eq, Structural)]
pub enum ProverLevel {
    /// The proof of the program's own execution.
    Base,
    /// The layer that folds base proofs.
    RecursionUnrolled,
    /// The succinct outer layer.
    RecursionUnified,
}

/// The compute strategy used to generate a proof.
#[derive(Clone, Copy, Debug, PartialEq, Eq, Structural)]
pub enum ProverBackend {
    Cpu,
    Gpu,
}

/// The machine configuration that a circuit is compiled for.
#[derive(Clone, Copy, Debug, PartialEq, Eq, Structural)]
pub enum MachineConfigType {
    /// The standard instruction set with unsigned multiplication and division.
    StandardIsaWithUnsignedMulDiv,
    /// The instruction set without byte access, with delegation.
    IsaWithoutByteAccessWithDelegation,
}

/// Where the program that a level proves comes from.
#[derive(Clone, Copy, Debug, PartialEq, Eq, Structural)]
pub enum BinarySource {
    /// The caller's own program, found beside the path the caller gives.
    UserProgram,
    /// The shipped program of the unrolled recursion layer.
    EmbeddedUnrolledRecursion,
    /// The shipped program of the unified recursion layer.
    EmbeddedUnifiedRecursion,
}

/// The shape of a verification-key file.
#[derive(Clone, Copy, Debug, PartialEq, Eq, Structural)]
pub enum VkShape {
    Unrolled,
    Unified,
}

/// What a level fixes: the machine type, the program and the shape of its
/// verification key.
#[derive(Clone, Copy, Debug, PartialEq, Eq, Structural)]
pub struct LevelConfig {
    pub machine: MachineConfigType,
    pub source: BinarySource,
    pub vk_shape: VkShape,
}

impl ProverLevel {
    /// Whether the level is one of the two recursion layers.
    pub open spec fn is_recursion(self) -> bool {
        self != ProverLevel::Base
    }
}

/// The configuration of each level.
pub open spec fn level_config(level: ProverLevel) -> LevelConfig {
    match level {
        ProverLevel::Base => LevelConfig {
            machine: MachineConfigType::StandardIsaWithUnsignedMulDiv,
            source: BinarySource::UserProgram,
            vk_shape: VkShape::Unrolled,
        },
        ProverLevel::RecursionUnrolled => LevelConfig {
            machine: MachineConfigType::IsaWithoutByteAccessWithDelegation,
            source: BinarySource::EmbeddedUnrolledRecursion,
            vk_shape: VkShape::Unrolled,
        },
        ProverLevel::RecursionUnified => LevelConfig {
            machine: MachineConfigType::IsaWithoutByteAccessWithDelegation,
            source: BinarySource::EmbeddedUnifiedRecursion,
            vk_shape: VkShape::Unified,
        },
    }
}

/// The machine type, the program source and the key shape of a level.
pub fn resolve(level: ProverLevel) -> (config: LevelConfig)
    ensures
        config == level_config(level),
{
    match level {
        ProverLevel::Base => LevelConfig {
            machine: MachineConfigType::StandardIsaWithUnsignedMulDiv,
            source: BinarySource::UserProgram,
            vk_shape: VkShape::Unrolled,
        },
        ProverLevel::RecursionUnrolled => LevelConfig {
            machine: MachineConfigType::IsaWithoutByteAccessWithDelegation,
            source: BinarySource::EmbeddedUnrolledRecursion,
            vk_shape: VkShape::Unrolled,
        },
        ProverLevel::RecursionUnified => LevelConfig {
            machine: MachineConfigType::IsaWithoutByteAccessWithDelegation,
            source: BinarySource::EmbeddedUnifiedRecursion,
            vk_shape: VkShape::Unified,
        },
    }
}

/// The base level is the only one whose program depends on what the caller
/// supplies; the two recursion levels run different shipped programs on the
/// same machine type, and only the outermost has a unified key.
pub proof fn lemma_level_config(level: ProverLevel)
    ensures
        level_config(level).source == BinarySource::UserProgram <==> level == ProverLevel::Base,
        level_config(level).vk_shape == VkShape::Unified <==> level
            == ProverLevel::RecursionUnified,
        level.is_recursion() <==> level_config(level).machine
            == MachineConfigType::IsaWithoutByteAccessWithDelegation,
        level_config(ProverLevel::RecursionUnrolled).source != level_config(
            ProverLevel::RecursionUnified,
        ).source,
{
}

} // verus!
