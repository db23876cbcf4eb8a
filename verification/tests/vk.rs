use airbender_cli::error::Error;
use serde::ser::{Serialize, SerializeStruct, Serializer};
use airbender_cli::level::{BinarySource, MachineConfigType, ProverLevel, VkShape};
use airbender_cli::vk::{
    check_decoded_length, generate_unified_vk, generate_unrolled_vk, generate_vk, verify_next,
    verify_proof, verify_start, LengthMismatch, UnifiedVkFile, UnrolledVkFile, VerifyEvent,
    VerifyPlan, VerifyStep, VkPlan,
};

const LEVELS: [ProverLevel; 3] =
    [ProverLevel::Base, ProverLevel::RecursionUnrolled, ProverLevel::RecursionUnified];

const KECCAK_OF_NOTHING: [u8; 32] = [
    0xc5, 0xd2, 0x46, 0x01, 0x86, 0xf7, 0x23, 0x3c, 0x92, 0x7e, 0x7d, 0xb2, 0xdc, 0xc7, 0x03, 0xc0,
    0xe5, 0x00, 0xb6, 0x53, 0xca, 0x82, 0x27, 0x3b, 0x7b, 0xfa, 0xd8, 0x04, 0x5d, 0x85, 0xa4, 0x70,
];

const KECCAK_OF_ABC: [u8; 32] = [
    0x4e, 0x03, 0x65, 0x7a, 0xea, 0x45, 0xa9, 0x4f, 0xc7, 0xd4, 0x7b, 0xa8, 0x26, 0xc8, 0xd6, 0x67,
    0xc0, 0xd1, 0xe6, 0xe3, 0x3a, 0x64, 0xa0, 0x36, 0xec, 0x44, 0xf5, 0x8f, 0xa1, 0x2d, 0x6c, 0x45,
];

#[test]
fn key_file_is_bound_by_the_keccak_digest() {
    let file = UnrolledVkFile::new(b"", vec![1, 2], vec![3]);
    assert_eq!(file.app_bin_hash, KECCAK_OF_NOTHING);
    assert_eq!(file.setup, vec![1, 2]);
    assert_eq!(file.compiled_layouts, vec![3]);
    let unified = UnifiedVkFile::new(b"abc", vec![], vec![9, 9]);
    assert_eq!(unified.app_bin_hash, KECCAK_OF_ABC);
    assert_eq!(unified.unified_setup, Vec::<u8>::new());
    assert_eq!(unified.unified_layouts, vec![9, 9]);
}

#[test]
fn key_file_is_digest_then_setup_then_layouts() {
    let file = UnrolledVkFile { app_bin_hash: [7u8; 32], setup: vec![1, 2, 3], compiled_layouts: vec![4, 5] };
    let mut expected = vec![7u8; 32];
    expected.extend_from_slice(&[1, 2, 3, 4, 5]);
    assert_eq!(file.encode(), expected);
    let unified = UnifiedVkFile { app_bin_hash: [8u8; 32], unified_setup: vec![], unified_layouts: vec![6] };
    let mut expected = vec![8u8; 32];
    expected.push(6);
    assert_eq!(unified.encode(), expected);
}

#[test]
fn unrolled_key_file_round_trips() {
    let file = UnrolledVkFile::new(b"program", vec![10, 20, 30, 40], vec![50, 60]);
    let bytes = file.encode();
    assert_eq!(bytes.len(), 38);
    assert_eq!(UnrolledVkFile::decode(&bytes, 4), Ok(file));
}

#[test]
fn unified_key_file_round_trips() {
    let file = UnifiedVkFile::new(b"program", vec![], vec![]);
    let bytes = file.encode();
    assert_eq!(bytes.len(), 32);
    assert_eq!(UnifiedVkFile::decode(&bytes, 0), Ok(file));
    let other = UnifiedVkFile::new(b"other", vec![1], vec![2, 3, 4]);
    assert_eq!(UnifiedVkFile::decode(&other.encode(), 1), Ok(other));
}

#[test]
fn short_key_file_is_refused() {
    assert_eq!(UnrolledVkFile::decode(&[0u8; 31], 0), Err(Error::DecodeError));
    assert_eq!(UnrolledVkFile::decode(&[0u8; 40], 9), Err(Error::DecodeError));
    assert_eq!(UnifiedVkFile::decode(&[], 0), Err(Error::DecodeError));
    assert_eq!(UnifiedVkFile::decode(&[0u8; 32], usize::MAX), Err(Error::DecodeError));
    assert!(UnrolledVkFile::decode(&[0u8; 40], 8).is_ok());
}

#[test]
fn unified_level_gets_the_unified_plan() {
    let expected = VkPlan::Unified {
        machine: MachineConfigType::IsaWithoutByteAccessWithDelegation,
        source: BinarySource::EmbeddedUnifiedRecursion,
    };
    assert_eq!(generate_vk(Some("app.bin"), ProverLevel::RecursionUnified), Ok(expected.clone()));
    assert_eq!(generate_vk(None, ProverLevel::RecursionUnified), Ok(expected.clone()));
    assert_eq!(generate_unified_vk(ProverLevel::RecursionUnified), Ok(expected));
}

#[test]
fn other_levels_get_an_unrolled_plan() {
    match generate_vk(Some("dir/app.bin"), ProverLevel::Base) {
        Ok(VkPlan::Unrolled { paths, machine, source }) => {
            assert_eq!(paths.bin, "dir/app.bin");
            assert_eq!(paths.text, "dir/app.text");
            assert_eq!(machine, MachineConfigType::StandardIsaWithUnsignedMulDiv);
            assert_eq!(source, BinarySource::UserProgram);
        }
        other => panic!("unexpected plan: {:?}", other),
    }
    match generate_vk(Some("dir/app"), ProverLevel::RecursionUnrolled) {
        Ok(VkPlan::Unrolled { paths, machine, source }) => {
            assert_eq!(paths.bin, "dir/app.bin");
            assert_eq!(paths.text, "dir/app.text");
            assert_eq!(machine, MachineConfigType::IsaWithoutByteAccessWithDelegation);
            assert_eq!(source, BinarySource::EmbeddedUnrolledRecursion);
        }
        other => panic!("unexpected plan: {:?}", other),
    }
    assert_eq!(generate_vk(None, ProverLevel::Base), Err(Error::NonUtf8Path));
}

#[test]
fn unified_key_through_the_unrolled_path_is_refused() {
    assert_eq!(
        generate_unrolled_vk(Some("app.bin"), ProverLevel::RecursionUnified),
        Err(Error::InvalidLevelCombination)
    );
    assert_eq!(
        generate_unrolled_vk(None, ProverLevel::RecursionUnified),
        Err(Error::InvalidLevelCombination)
    );
}

#[test]
fn unrolled_key_through_the_unified_path_is_refused() {
    assert_eq!(generate_unified_vk(ProverLevel::Base), Err(Error::InvalidLevelCombination));
    assert_eq!(
        generate_unified_vk(ProverLevel::RecursionUnrolled),
        Err(Error::InvalidLevelCombination)
    );
}

#[test]
fn each_level_is_checked_in_its_own_way() {
    assert_eq!(
        verify_proof(ProverLevel::Base),
        VerifyPlan { vk_shape: VkShape::Unrolled, is_base_layer: true }
    );
    assert_eq!(
        verify_proof(ProverLevel::RecursionUnrolled),
        VerifyPlan { vk_shape: VkShape::Unrolled, is_base_layer: false }
    );
    assert_eq!(
        verify_proof(ProverLevel::RecursionUnified),
        VerifyPlan { vk_shape: VkShape::Unified, is_base_layer: false }
    );
}

#[test]
fn verification_decodes_then_checks() {
    for level in LEVELS {
        let plan = verify_proof(level);
        let step = verify_start();
        assert_eq!(step, VerifyStep::DecodeProof);
        let step = verify_next(level, step, VerifyEvent::ProofDecoded(true));
        assert_eq!(step, VerifyStep::DecodeVk(plan.vk_shape));
        let step = verify_next(level, step, VerifyEvent::VkDecoded(true));
        assert_eq!(step, VerifyStep::Check(plan));
        let step = verify_next(level, step, VerifyEvent::Checked(Some(vec![1, 2, 3])));
        assert_eq!(step, VerifyStep::Done(Ok(vec![1, 2, 3])));
    }
}

#[test]
fn malformed_artifacts_and_rejected_proofs_are_told_apart() {
    for level in LEVELS {
        let step = verify_next(level, verify_start(), VerifyEvent::ProofDecoded(false));
        assert_eq!(step, VerifyStep::Done(Err(Error::DecodeError)));
        let step = verify_next(level, verify_start(), VerifyEvent::ProofDecoded(true));
        let step = verify_next(level, step, VerifyEvent::VkDecoded(false));
        assert_eq!(step, VerifyStep::Done(Err(Error::DecodeError)));
        let step = verify_next(level, VerifyStep::Check(verify_proof(level)), VerifyEvent::Checked(None));
        assert_eq!(step, VerifyStep::Done(Err(Error::VerificationFailed)));
    }
}

#[test]
fn verification_ignores_events_out_of_turn() {
    let level = ProverLevel::Base;
    assert_eq!(
        verify_next(level, VerifyStep::DecodeProof, VerifyEvent::Checked(Some(vec![1]))),
        VerifyStep::DecodeProof
    );
    assert_eq!(
        verify_next(level, VerifyStep::DecodeVk(VkShape::Unrolled), VerifyEvent::ProofDecoded(true)),
        VerifyStep::DecodeVk(VkShape::Unrolled)
    );
    assert_eq!(
        verify_next(level, VerifyStep::Check(verify_proof(level)), VerifyEvent::VkDecoded(false)),
        VerifyStep::Check(verify_proof(level))
    );
    assert_eq!(
        verify_next(level, VerifyStep::Done(Err(Error::DecodeError)), VerifyEvent::Checked(Some(vec![]))),
        VerifyStep::Done(Err(Error::DecodeError))
    );
    assert_eq!(
        verify_next(level, VerifyStep::Done(Ok(vec![4])), VerifyEvent::Checked(None)),
        VerifyStep::Done(Ok(vec![4]))
    );
}

#[test]
fn decoded_length_is_compared_with_the_file() {
    assert_eq!(check_decoded_length(10, 10), None);
    assert_eq!(check_decoded_length(0, 0), None);
    assert_eq!(check_decoded_length(8, 10), Some(LengthMismatch { decoded: 8, file_len: 10 }));
    assert_eq!(check_decoded_length(11, 10), Some(LengthMismatch { decoded: 11, file_len: 10 }));
}

struct SampleSetup {
    rounds: u32,
    name: String,
    table: Vec<u16>,
}

impl Serialize for SampleSetup {
    fn serialize<S: Serializer>(&self, serializer: S) -> Result<S::Ok, S::Error> {
        let mut state = serializer.serialize_struct("SampleSetup", 3)?;
        state.serialize_field("rounds", &self.rounds)?;
        state.serialize_field("name", &self.name)?;
        state.serialize_field("table", &self.table)?;
        state.end()
    }
}

struct SampleLayouts {
    widths: Vec<u64>,
    compact: bool,
}

impl Serialize for SampleLayouts {
    fn serialize<S: Serializer>(&self, serializer: S) -> Result<S::Ok, S::Error> {
        let mut state = serializer.serialize_struct("SampleLayouts", 2)?;
        state.serialize_field("widths", &self.widths)?;
        state.serialize_field("compact", &self.compact)?;
        state.end()
    }
}

struct SampleUnrolledVk<'a> {
    app_bin_hash: [u8; 32],
    setup: &'a SampleSetup,
    compiled_layouts: &'a SampleLayouts,
}

impl Serialize for SampleUnrolledVk<'_> {
    fn serialize<S: Serializer>(&self, serializer: S) -> Result<S::Ok, S::Error> {
        let mut state = serializer.serialize_struct("UnrolledVkFile", 3)?;
        state.serialize_field("app_bin_hash", &self.app_bin_hash)?;
        state.serialize_field("setup", self.setup)?;
        state.serialize_field("compiled_layouts", self.compiled_layouts)?;
        state.end()
    }
}

struct SampleUnifiedVk<'a> {
    app_bin_hash: [u8; 32],
    unified_setup: &'a SampleSetup,
    unified_layouts: &'a SampleLayouts,
}

impl Serialize for SampleUnifiedVk<'_> {
    fn serialize<S: Serializer>(&self, serializer: S) -> Result<S::Ok, S::Error> {
        let mut state = serializer.serialize_struct("UnifiedVkFile", 3)?;
        state.serialize_field("app_bin_hash", &self.app_bin_hash)?;
        state.serialize_field("unified_setup", self.unified_setup)?;
        state.serialize_field("unified_layouts", self.unified_layouts)?;
        state.end()
    }
}

fn bincoded<T: Serialize>(value: &T) -> Vec<u8> {
    bincode::serde::encode_to_vec(value, bincode::config::standard()).unwrap()
}

fn samples() -> (SampleSetup, SampleLayouts) {
    (
        SampleSetup { rounds: 70_000, name: "setup".to_string(), table: vec![1, 250, 251, 65_535] },
        SampleLayouts { widths: vec![0, u64::MAX, 300], compact: true },
    )
}

#[test]
fn unrolled_key_file_is_what_bincode_writes_for_the_struct() {
    let (setup, layouts) = samples();
    let file = UnrolledVkFile::new(b"abc", bincoded(&setup), bincoded(&layouts));
    let whole = bincoded(&SampleUnrolledVk {
        app_bin_hash: KECCAK_OF_ABC,
        setup: &setup,
        compiled_layouts: &layouts,
    });
    assert_eq!(file.encode(), whole);
    assert_eq!(UnrolledVkFile::decode(&whole, bincoded(&setup).len()), Ok(file));
}

#[test]
fn unified_key_file_is_what_bincode_writes_for_the_struct() {
    let (setup, layouts) = samples();
    let hash = [0xffu8; 32];
    let file = UnifiedVkFile {
        app_bin_hash: hash,
        unified_setup: bincoded(&setup),
        unified_layouts: bincoded(&layouts),
    };
    let whole = bincoded(&SampleUnifiedVk {
        app_bin_hash: hash,
        unified_setup: &setup,
        unified_layouts: &layouts,
    });
    assert_eq!(file.encode(), whole);
    assert_eq!(UnifiedVkFile::decode(&whole, bincoded(&setup).len()), Ok(file));
}
