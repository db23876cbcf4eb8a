use crate::error::Error;
use crate::level::{
    level_config, resolve, BinarySource, LevelConfig, MachineConfigType, ProverLevel, VkShape,
};
use crate::paths::{paths_of, program_paths, strip_bin_suffix, ProgramPaths};
use vstd::prelude::*;
use vstd::slice::{slice_subrange, slice_to_vec};

verus! {

/// The number of bytes of the digest that binds a key file to a program.
pub const HASH_BYTES: usize = 32;

/// The Keccak-256 digest of a sequence of bytes.
pub uninterp spec fn keccak256_digest(data: Seq<u8>) -> Seq<u8>;

/// Calls `sha3::Keccak256::digest`: the result is the Keccak-256 digest of
/// `data`, which has 32 bytes.
#[verifier::external_body]
fn keccak256(data: &[u8]) -> (digest: [u8; 32])
    ensures
        digest@ == keccak256_digest(data@),
{
    <sha3::Keccak256 as sha3::Digest>::digest(data).into()
}

/// What a verification-key file holds, whatever its shape: the digest of the
/// program binary it was generated for, and the setup and the circuit layouts
/// in their encoded form.
pub struct VkContents {
    pub app_bin_hash: Seq<u8>,
    pub setup: Seq<u8>,
    pub layouts: Seq<u8>,
}

/// The verification key of the base layer or of the unrolled recursion layer.
#[derive(Clone, Debug, PartialEq, Eq)]
pub struct UnrolledVkFile {
    pub app_bin_hash: [u8; 32],
    pub setup: Vec<u8>,
    pub compiled_layouts: Vec<u8>,
}

/// The verification key of the unified recursion layer.
#[derive(Clone, Debug, PartialEq, Eq)]
pub struct UnifiedVkFile {
    pub app_bin_hash: [u8; 32],
    pub unified_setup: Vec<u8>,
    pub unified_layouts: Vec<u8>,
}

impl View for UnrolledVkFile {
    type V = VkContents;

    open spec fn view(&self) -> VkContents {
        VkContents {
            app_bin_hash: self.app_bin_hash@,
            setup: self.setup@,
            layouts: self.compiled_layouts@,
        }
    }
}

impl View for UnifiedVkFile {
    type V = VkContents;

    open spec fn view(&self) -> VkContents {
        VkContents {
            app_bin_hash: self.app_bin_hash@,
            setup: self.unified_setup@,
            layouts: self.unified_layouts@,
        }
    }
}

/// The key contents that bind a setup and its layouts to a program binary.
pub open spec fn bound_contents(app_bin: Seq<u8>, setup: Seq<u8>, layouts: Seq<u8>) -> VkContents {
    VkContents { app_bin_hash: keccak256_digest(app_bin), setup, layouts }
}

/// The bytes of a key file: the digest, then the setup, then the layouts.
pub open spec fn vk_encoding(contents: VkContents) -> Seq<u8> {
    contents.app_bin_hash + contents.setup + contents.layouts
}

/// The contents of a key file whose setup takes `setup_len` bytes, or `None`
/// where the file is too short to hold a digest and such a setup.
pub open spec fn vk_decoding(bytes: Seq<u8>, setup_len: nat) -> Option<VkContents> {
    if bytes.len() >= HASH_BYTES + setup_len {
        Some(
            VkContents {
                app_bin_hash: bytes.subrange(0, HASH_BYTES as int),
                setup: bytes.subrange(HASH_BYTES as int, HASH_BYTES + setup_len),
                layouts: bytes.subrange(HASH_BYTES + setup_len, bytes.len() as int),
            },
        )
    } else {
        None
    }
}

/// Decoding the bytes of a key file gives back the contents they were made
/// from.
pub proof fn lemma_vk_round_trip(contents: VkContents)
    requires
        contents.app_bin_hash.len() == HASH_BYTES,
    ensures
        vk_decoding(vk_encoding(contents), contents.setup.len()) == Some(contents),
{
    let bytes = vk_encoding(contents);
    let decoded = vk_decoding(bytes, contents.setup.len())->Some_0;
    assert(decoded.app_bin_hash =~= contents.app_bin_hash);
    assert(decoded.setup =~= contents.setup);
    assert(decoded.layouts =~= contents.layouts);
}

/// Encoding the contents that a file decodes to gives back the file.
pub proof fn lemma_vk_decoding_is_exact(bytes: Seq<u8>, setup_len: nat)
    requires
        vk_decoding(bytes, setup_len) is Some,
    ensures
        vk_encoding(vk_decoding(bytes, setup_len)->Some_0) == bytes,
{
    assert(vk_encoding(vk_decoding(bytes, setup_len)->Some_0) =~= bytes);
}

fn encode_parts(hash: &[u8; 32], setup: &Vec<u8>, layouts: &Vec<u8>) -> (bytes: Vec<u8>)
    ensures
        bytes@ == hash@ + setup@ + layouts@,
{
    let mut bytes: Vec<u8> = Vec::new();
    let mut i: usize = 0;
    while i < 32
        invariant
            i <= 32,
            bytes@ == hash@.take(i as int),
        decreases 32 - i,
    {
        bytes.push(hash[i]);
        assert(bytes@ =~= hash@.take(i + 1));
        i += 1;
    }
    assert(hash@.take(32) =~= hash@);
    let mut j: usize = 0;
    while j < setup.len()
        invariant
            j <= setup.len(),
            bytes@ == hash@ + setup@.take(j as int),
        decreases setup.len() - j,
    {
        bytes.push(setup[j]);
        assert(bytes@ =~= hash@ + setup@.take(j + 1));
        j += 1;
    }
    assert(setup@.take(setup.len() as int) =~= setup@);
    let mut k: usize = 0;
    while k < layouts.len()
        invariant
            k <= layouts.len(),
            bytes@ == hash@ + setup@ + layouts@.take(k as int),
        decreases layouts.len() - k,
    {
        bytes.push(layouts[k]);
        assert(bytes@ =~= hash@ + setup@ + layouts@.take(k + 1));
        k += 1;
    }
    assert(layouts@.take(layouts.len() as int) =~= layouts@);
    bytes
}

fn leading_hash(bytes: &[u8]) -> (hash: [u8; 32])
    requires
        bytes@.len() >= 32,
    ensures
        hash@ == bytes@.subrange(0, 32),
{
    let mut hash: [u8; 32] = [0u8; 32];
    let mut i: usize = 0;
    while i < 32
        invariant
            i <= 32,
            bytes@.len() >= 32,
            forall|j: int| 0 <= j < i ==> hash@[j] == bytes@[j],
        decreases 32 - i,
    {
        hash[i] = bytes[i];
        i += 1;
    }
    assert(hash@ =~= bytes@.subrange(0, 32));
    hash
}

impl UnrolledVkFile {
    /// The key file that binds `setup` and `compiled_layouts` to the program
    /// binary with the contents `app_bin`.
    pub fn new(app_bin: &[u8], setup: Vec<u8>, compiled_layouts: Vec<u8>) -> (file: Self)
        ensures
            file@ == bound_contents(app_bin@, setup@, compiled_layouts@),
    {
        UnrolledVkFile { app_bin_hash: keccak256(app_bin), setup, compiled_layouts }
    }

    /// The bytes of the file.
    pub fn encode(&self) -> (bytes: Vec<u8>)
        ensures
            bytes@ == vk_encoding(self@),
    {
        encode_parts(&self.app_bin_hash, &self.setup, &self.compiled_layouts)
    }

    /// Reads a file whose setup takes `setup_len` bytes. A file too short for
    /// its digest and that setup is refused.
    pub fn decode(bytes: &[u8], setup_len: usize) -> (result: Result<Self, Error>)
        ensures
            match result {
                Ok(file) => vk_decoding(bytes@, setup_len as nat) == Some(file@),
                Err(e) => e == Error::DecodeError && vk_decoding(bytes@, setup_len as nat) is None,
            },
    {
        if bytes.len() < HASH_BYTES || bytes.len() - HASH_BYTES < setup_len {
            return Err(Error::DecodeError);
        }
        let app_bin_hash = leading_hash(bytes);
        let setup = slice_to_vec(slice_subrange(bytes, HASH_BYTES, HASH_BYTES + setup_len));
        let compiled_layouts = slice_to_vec(
            slice_subrange(bytes, HASH_BYTES + setup_len, bytes.len()),
        );
        Ok(UnrolledVkFile { app_bin_hash, setup, compiled_layouts })
    }
}

impl UnifiedVkFile {
    /// The key file that binds `unified_setup` and `unified_layouts` to the
    /// program binary with the contents `app_bin`.
    pub fn new(app_bin: &[u8], unified_setup: Vec<u8>, unified_layouts: Vec<u8>) -> (file: Self)
        ensures
            file@ == bound_contents(app_bin@, unified_setup@, unified_layouts@),
    {
        UnifiedVkFile { app_bin_hash: keccak256(app_bin), unified_setup, unified_layouts }
    }

    /// The bytes of the file.
    pub fn encode(&self) -> (bytes: Vec<u8>)
        ensures
            bytes@ == vk_encoding(self@),
    {
        encode_parts(&self.app_bin_hash, &self.unified_setup, &self.unified_layouts)
    }

    /// Reads a file whose setup takes `setup_len` bytes. A file too short for
    /// its digest and that setup is refused.
    pub fn decode(bytes: &[u8], setup_len: usize) -> (result: Result<Self, Error>)
        ensures
            match result {
                Ok(file) => vk_decoding(bytes@, setup_len as nat) == Some(file@),
                Err(e) => e == Error::DecodeError && vk_decoding(bytes@, setup_len as nat) is None,
            },
    {
        if bytes.len() < HASH_BYTES || bytes.len() - HASH_BYTES < setup_len {
            return Err(Error::DecodeError);
        }
        let app_bin_hash = leading_hash(bytes);
        let unified_setup = slice_to_vec(
            slice_subrange(bytes, HASH_BYTES, HASH_BYTES + setup_len),
        );
        let unified_layouts = slice_to_vec(
            slice_subrange(bytes, HASH_BYTES + setup_len, bytes.len()),
        );
        Ok(UnifiedVkFile { app_bin_hash, unified_setup, unified_layouts })
    }
}

/// What generating the key of a level takes.
#[derive(Clone, Debug, PartialEq, Eq)]
pub enum VkPlan {
    /// An unrolled key: the setup and the layouts are computed for `machine`
    /// over the program that `source` names, and bound to the binary at
    /// `paths.bin`.
    Unrolled { paths: ProgramPaths, machine: MachineConfigType, source: BinarySource },
    /// A unified key: the setup and the layouts are computed for `machine`
    /// over the shipped unified program, and bound to the binary at the path
    /// as the caller gave it.
    Unified { machine: MachineConfigType, source: BinarySource },
}

/// Whether `plan` is the unrolled plan of `level` for the program at `path`.
pub open spec fn is_unrolled_plan(plan: VkPlan, path: Seq<char>, level: ProverLevel) -> bool {
    match plan {
        VkPlan::Unrolled { paths, machine, source } => {
            &&& paths_of(path, paths)
            &&& machine == level_config(level).machine
            &&& source == level_config(level).source
        },
        VkPlan::Unified { .. } => false,
    }
}

/// Whether `plan` is the unified plan.
pub open spec fn is_unified_plan(plan: VkPlan) -> bool {
    plan == (VkPlan::Unified {
        machine: level_config(ProverLevel::RecursionUnified).machine,
        source: level_config(ProverLevel::RecursionUnified).source,
    })
}

/// Plans the unified key. Only the unified level has one: any other level is
/// refused before anything is computed.
pub fn generate_unified_vk(level: ProverLevel) -> (result: Result<VkPlan, Error>)
    ensures
        level == ProverLevel::RecursionUnified ==> result is Ok && is_unified_plan(result->Ok_0),
        level != ProverLevel::RecursionUnified ==> result == Err::<VkPlan, Error>(
            Error::InvalidLevelCombination,
        ),
{
    let config: LevelConfig = resolve(level);
    match config.vk_shape {
        VkShape::Unified => Ok(VkPlan::Unified { machine: config.machine, source: config.source }),
        VkShape::Unrolled => Err(Error::InvalidLevelCombination),
    }
}

/// Plans an unrolled key for the program at `app_bin`, a path that arrives as
/// `None` where it is not valid UTF-8. The unified level has no unrolled key
/// and is refused before the path is looked at.
pub fn generate_unrolled_vk(app_bin: Option<&str>, level: ProverLevel) -> (result: Result<
    VkPlan,
    Error,
>)
    ensures
        level == ProverLevel::RecursionUnified ==> result == Err::<VkPlan, Error>(
            Error::InvalidLevelCombination,
        ),
        level != ProverLevel::RecursionUnified && app_bin is None ==> result == Err::<
            VkPlan,
            Error,
        >(Error::NonUtf8Path),
        level != ProverLevel::RecursionUnified && app_bin is Some ==> result is Ok
            && is_unrolled_plan(result->Ok_0, app_bin->Some_0@, level),
{
    let config: LevelConfig = resolve(level);
    match config.vk_shape {
        VkShape::Unified => Err(Error::InvalidLevelCombination),
        VkShape::Unrolled => {
            match strip_bin_suffix(app_bin) {
                Err(e) => Err(e),
                Ok(stem) => Ok(
                    VkPlan::Unrolled {
                        paths: program_paths(stem.as_str()),
                        machine: config.machine,
                        source: config.source,
                    },
                ),
            }
        },
    }
}

/// Plans the key of a level for the program at `app_bin`: the unified key
/// for the unified level, an unrolled key for the two others.
pub fn generate_vk(app_bin: Option<&str>, level: ProverLevel) -> (result: Result<VkPlan, Error>)
    ensures
        level == ProverLevel::RecursionUnified ==> result is Ok && is_unified_plan(result->Ok_0),
        level != ProverLevel::RecursionUnified && app_bin is None ==> result == Err::<
            VkPlan,
            Error,
        >(Error::NonUtf8Path),
        level != ProverLevel::RecursionUnified && app_bin is Some ==> result is Ok
            && is_unrolled_plan(result->Ok_0, app_bin->Some_0@, level),
{
    match level {
        ProverLevel::RecursionUnified => generate_unified_vk(level),
        ProverLevel::Base | ProverLevel::RecursionUnrolled => generate_unrolled_vk(app_bin, level),
    }
}

/// How a proof of a level is checked.
#[derive(Clone, Copy, Debug, PartialEq, Eq, Structural)]
pub struct VerifyPlan {
    /// The shape that the key file is decoded as, which is also the layer
    /// whose checking routine is called.
    pub vk_shape: VkShape,
    /// Whether the proof is checked as one of the base layer.
    pub is_base_layer: bool,
}

/// What is to be done next in a verification.
#[derive(Debug, PartialEq, Eq)]
pub enum VerifyStep {
    /// Decode the proof.
    DecodeProof,
    /// Decode the key file in this shape.
    DecodeVk(VkShape),
    /// Call the checking routine of the plan's layer.
    Check(VerifyPlan),
    /// Report this result: the public output of an accepted proof, or why
    /// there is none.
    Done(Result<Vec<u32>, Error>),
}

/// What the last step of a verification found.
#[derive(Clone, Debug, PartialEq, Eq)]
pub enum VerifyEvent {
    /// Whether the proof could be decoded.
    ProofDecoded(bool),
    /// Whether the key file could be decoded in the shape asked for.
    VkDecoded(bool),
    /// The public output of a proof that the checking routine accepted, or
    /// `None` for one that it rejected.
    Checked(Option<Vec<u32>>),
}

/// A decoder that did not consume a whole file.
#[derive(Clone, Copy, Debug, PartialEq, Eq, Structural)]
pub struct LengthMismatch {
    pub decoded: usize,
    pub file_len: usize,
}

/// The plan by which each level is checked.
pub open spec fn verify_plan(level: ProverLevel) -> VerifyPlan {
    VerifyPlan {
        vk_shape: level_config(level).vk_shape,
        is_base_layer: level == ProverLevel::Base,
    }
}

/// How a proof of `level` is checked: with the key shape of the level, and
/// as a base-layer proof exactly where the level is the base level.
pub fn verify_proof(level: ProverLevel) -> (plan: VerifyPlan)
    ensures
        plan == verify_plan(level),
{
    match level {
        ProverLevel::RecursionUnified => VerifyPlan {
            vk_shape: VkShape::Unified,
            is_base_layer: false,
        },
        ProverLevel::Base => VerifyPlan { vk_shape: VkShape::Unrolled, is_base_layer: true },
        ProverLevel::RecursionUnrolled => VerifyPlan {
            vk_shape: VkShape::Unrolled,
            is_base_layer: false,
        },
    }
}

/// The step that follows `step` on `event` in a verification at `level`:
/// the proof is decoded first, then the key in the shape of the level, then
/// the proof is checked. An artifact that cannot be decoded and a proof that
/// is rejected end the verification with different errors. An event that does
/// not answer the step leaves it as it is.
pub open spec fn verify_step_after(level: ProverLevel, step: VerifyStep, event: VerifyEvent) -> VerifyStep {
    match (step, event) {
        (VerifyStep::DecodeProof, VerifyEvent::ProofDecoded(decoded)) => if decoded {
            VerifyStep::DecodeVk(verify_plan(level).vk_shape)
        } else {
            VerifyStep::Done(Err(Error::DecodeError))
        },
        (VerifyStep::DecodeVk(_), VerifyEvent::VkDecoded(decoded)) => if decoded {
            VerifyStep::Check(verify_plan(level))
        } else {
            VerifyStep::Done(Err(Error::DecodeError))
        },
        (VerifyStep::Check(_), VerifyEvent::Checked(Some(output))) => VerifyStep::Done(Ok(output)),
        (VerifyStep::Check(_), VerifyEvent::Checked(None)) => VerifyStep::Done(
            Err(Error::VerificationFailed),
        ),
        _ => step,
    }
}

/// The first step of every verification: to decode the proof.
pub fn verify_start() -> (step: VerifyStep)
    ensures
        step == VerifyStep::DecodeProof,
{
    VerifyStep::DecodeProof
}

/// The step of a verification at `level` that follows `step` on `event`.
pub fn verify_next(level: ProverLevel, step: VerifyStep, event: VerifyEvent) -> (next: VerifyStep)
    ensures
        next == verify_step_after(level, step, event),
{
    match step {
        VerifyStep::DecodeProof => match event {
            VerifyEvent::ProofDecoded(true) => VerifyStep::DecodeVk(verify_proof(level).vk_shape),
            VerifyEvent::ProofDecoded(false) => VerifyStep::Done(Err(Error::DecodeError)),
            _ => VerifyStep::DecodeProof,
        },
        VerifyStep::DecodeVk(shape) => match event {
            VerifyEvent::VkDecoded(true) => VerifyStep::Check(verify_proof(level)),
            VerifyEvent::VkDecoded(false) => VerifyStep::Done(Err(Error::DecodeError)),
            _ => VerifyStep::DecodeVk(shape),
        },
        VerifyStep::Check(plan) => match event {
            VerifyEvent::Checked(Some(output)) => VerifyStep::Done(Ok(output)),
            VerifyEvent::Checked(None) => VerifyStep::Done(Err(Error::VerificationFailed)),
            _ => VerifyStep::Check(plan),
        },
        VerifyStep::Done(result) => VerifyStep::Done(result),
    }
}

/// Compares what a decoder consumed with the length of the file. A
/// difference is worth a warning, and no error.
pub fn check_decoded_length(decoded: usize, file_len: usize) -> (mismatch: Option<LengthMismatch>)
    ensures
        decoded == file_len ==> mismatch is None,
        decoded != file_len ==> mismatch == Some(LengthMismatch { decoded, file_len }),
{
    if decoded == file_len {
        None
    } else {
        Some(LengthMismatch { decoded, file_len })
    }
}

/// The key of a level has the shape that the level is checked with, and only
/// the base level is checked as the base layer.
pub proof fn lemma_verify_plan(level: ProverLevel)
    ensures
        verify_plan(level).vk_shape == VkShape::Unified <==> level
            == ProverLevel::RecursionUnified,
        verify_plan(level).is_base_layer <==> level == ProverLevel::Base,
        verify_plan(level).is_base_layer ==> verify_plan(level).vk_shape == VkShape::Unrolled,
{
}

/// A verification never checks a proof against a key of another shape than
/// its level's, nor with another base-layer flag, and it reports acceptance
/// only for a proof that the checking routine accepted.
pub proof fn lemma_verify_steps(level: ProverLevel, step: VerifyStep, event: VerifyEvent)
    ensures
        !(step is DecodeVk) && verify_step_after(level, step, event) is DecodeVk
            ==> verify_step_after(level, step, event)->DecodeVk_0 == level_config(level).vk_shape,
        !(step is Check) && verify_step_after(level, step, event) is Check ==> verify_step_after(
            level,
            step,
            event,
        )->Check_0 == verify_plan(level),
        !(step is Done) ==> (verify_step_after(level, step, event) matches VerifyStep::Done(
            Ok(output),
        ) ==> step is Check && event == VerifyEvent::Checked(Some(output))),
        step is Done ==> verify_step_after(level, step, event) == step,
{
}

} // verus!
