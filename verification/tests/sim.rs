use airbender_cli::error::Error;
use airbender_cli::sim::{
    cycle_limit, profiler_diagnostics, report_run_outcome, require_file, simulated_outcome,
    OutputRegister, RequiredFile, SimulationOutcome, SymbolsPath, DEFAULT_CYCLES,
};
use std::path::PathBuf;
use airbender_cli::sim_transpiler::{jit_cycle_bound, jit_outcome, read_u32_words, text_path_for};

fn registers() -> [u32; 32] {
    let mut r = [0u32; 32];
    for (i, slot) in r.iter_mut().enumerate() {
        *slot = 100 + i as u32;
    }
    r
}

#[test]
fn cycle_limit_defaults() {
    assert_eq!(DEFAULT_CYCLES, 90_000_000_000);
    assert_eq!(cycle_limit(None), 90_000_000_000);
    assert_eq!(cycle_limit(Some(0)), 0);
    assert_eq!(cycle_limit(Some(17)), 17);
}

#[test]
fn missing_files_have_their_own_errors() {
    assert_eq!(require_file(RequiredFile::Binary, false), Err(Error::BinaryNotFound));
    assert_eq!(require_file(RequiredFile::Text, false), Err(Error::TextNotFound));
    assert_eq!(require_file(RequiredFile::Symbols, false), Err(Error::SymbolsNotFound));
    assert_eq!(require_file(RequiredFile::Binary, true), Ok(()));
    assert_eq!(require_file(RequiredFile::Text, true), Ok(()));
    assert_eq!(require_file(RequiredFile::Symbols, true), Ok(()));
}

#[test]
fn profiler_reads_the_named_symbols() {
    let plan = profiler_diagnostics(
        Some("dir/app.bin"),
        Some("sym/app.elf".to_string()),
        "out.svg".to_string(),
        100,
        true,
    )
    .unwrap();
    assert_eq!(plan.symbols_path, SymbolsPath::Given("sym/app.elf".to_string()));
    assert_eq!(plan.output, "out.svg");
    assert_eq!(plan.frequency_recip, 100);
    assert!(plan.reverse_graph);
}

#[test]
fn profiler_derives_the_symbols_from_the_binary() {
    let plan =
        profiler_diagnostics(Some("dir/app.bin"), None, "flamegraph.svg".to_string(), 7, false)
            .unwrap();
    assert_eq!(plan.symbols_path, SymbolsPath::Derived("dir/app.elf".to_string()));
    assert_eq!(plan.output, "flamegraph.svg");
    assert_eq!(plan.frequency_recip, 7);
    assert!(!plan.reverse_graph);
}

#[test]
fn profiler_carries_paths_that_are_no_text() {
    let named = PathBuf::from("sym/app.elf");
    let output = PathBuf::from("out.svg");
    let plan = profiler_diagnostics(None, Some(named.clone()), output.clone(), 3, false).unwrap();
    assert_eq!(plan.symbols_path, SymbolsPath::Given(named));
    assert_eq!(plan.output, output);
}

#[test]
fn profiler_cannot_derive_symbols_from_a_path_that_is_no_text() {
    assert_eq!(
        profiler_diagnostics::<PathBuf>(None, None, PathBuf::from("out.svg"), 3, false),
        Err(Error::NonUtf8Path)
    );
}

#[test]
fn halted_run_reports_one_more_than_its_last_cycle() {
    let outcome = simulated_outcome(registers(), true, 41, 1000);
    assert_eq!(outcome.cycles_executed, 42);
    assert!(outcome.reached_end);
    assert_eq!(outcome.registers, registers());
    let first = simulated_outcome(registers(), true, 0, 1000);
    assert_eq!(first.cycles_executed, 1);
}

#[test]
fn halted_run_saturates() {
    let outcome = simulated_outcome(registers(), true, u64::MAX, 5);
    assert_eq!(outcome.cycles_executed, u64::MAX);
}

#[test]
fn exhausted_run_reports_its_bound() {
    let outcome = simulated_outcome(registers(), false, 41, 1000);
    assert_eq!(outcome.cycles_executed, 1000);
    assert!(!outcome.reached_end);
}

#[test]
fn report_names_the_output_registers() {
    let outcome = SimulationOutcome { registers: registers(), cycles_executed: 9, reached_end: true };
    let report = report_run_outcome(&outcome);
    assert_eq!(report.cycles_executed, 9);
    assert!(report.reached_end);
    let expected: Vec<OutputRegister> =
        (10..18).map(|i| OutputRegister { index: i, value: 100 + i as u32 }).collect();
    assert_eq!(report.outputs, expected);
}

#[test]
fn jit_reads_the_named_text() {
    assert_eq!(text_path_for("dir/app.bin", Some("other.text".to_string())), "other.text");
    assert_eq!(text_path_for("dir/app.bin", None), "dir/app.text");
}

#[test]
fn jit_bound_fits_in_32_bits_or_is_dropped() {
    assert_eq!(jit_cycle_bound(0), Some(0));
    assert_eq!(jit_cycle_bound(12345), Some(12345));
    assert_eq!(jit_cycle_bound(0xFFFF_FFFF), Some(u32::MAX));
    assert_eq!(jit_cycle_bound(0x1_0000_0000), None);
    assert_eq!(jit_cycle_bound(DEFAULT_CYCLES), None);
}

#[test]
fn jit_outcome_counts_clock_steps() {
    let outcome = jit_outcome(registers(), 404, 4, 4);
    assert_eq!(outcome.cycles_executed, 100);
    assert!(outcome.reached_end);
    assert_eq!(outcome.registers, registers());
    assert_eq!(jit_outcome(registers(), 4, 4, 4).cycles_executed, 0);
    assert_eq!(jit_outcome(registers(), 10, 4, 4).cycles_executed, 1);
}

#[test]
fn words_are_read_least_significant_byte_first() {
    assert_eq!(
        read_u32_words(&[0x78, 0x56, 0x34, 0x12, 0xff, 0xff, 0xff, 0xff, 1, 0, 0, 0]),
        Some(vec![0x1234_5678u32, u32::MAX, 1])
    );
    assert_eq!(read_u32_words(&[0xef, 0xbe, 0xad, 0xde]), Some(vec![u32::from_le_bytes([0xef, 0xbe, 0xad, 0xde])]));
    assert_eq!(read_u32_words(&[]), Some(vec![]));
}

#[test]
fn ragged_file_holds_no_words() {
    assert_eq!(read_u32_words(&[1, 2, 3]), None);
    assert_eq!(read_u32_words(&[1, 2, 3, 4, 5]), None);
}
