use vihaco::workloads::contract::{valid_id, Case, Contract, ContractError, Limits};
use vihaco::workloads::{
    arith_pow_squaring, arithmetic, bitwise, branching, dispatch, large_frame, recursive_fibonacci,
};

const INPUTS: [(u64, u64); 5] = [(0, 5), (1, 5), (10, 3), (1000, 12345), (0, 65535)];

fn results(run: fn(u64, u64) -> u64) -> Vec<u64> {
    INPUTS.iter().map(|&(iterations, seed)| run(iterations, seed)).collect()
}

#[test]
fn pow_squaring_is_modular_exponentiation() {
    assert_eq!(results(arith_pow_squaring::run), [1, 5, 59049, 29563, 1]);
    assert_eq!(arith_pow_squaring::run(u64::MAX, 1), 1);
    assert_eq!(arith_pow_squaring::run(3, 65521), 0);
}

#[test]
fn arithmetic_walk_matches_reference_values() {
    assert_eq!(results(arithmetic::run), [5, 85, 20446, 46075, 65535]);
}

#[test]
fn bitwise_mixing_matches_reference_values() {
    assert_eq!(results(bitwise::run), [5, 20485, 3, 12473, 65535]);
    assert_eq!(bitwise::run(0, u64::MAX), 65535);
}

#[test]
fn branching_walk_matches_reference_values() {
    assert_eq!(results(branching::run), [5, 16, 19, 30370, 65535]);
}

#[test]
fn dispatch_walk_matches_reference_values() {
    assert_eq!(results(dispatch::run), [5, 10, 3109, 39009, 65535]);
}

#[test]
fn large_frame_sums_its_slots() {
    assert_eq!(results(large_frame::run), [95, 7620, 383444, 268275, 655395]);
}

#[test]
fn recursive_fibonacci_adds_the_seed() {
    assert_eq!(recursive_fibonacci::run(0, 0), 0);
    assert_eq!(recursive_fibonacci::run(1, 0), 1);
    assert_eq!(recursive_fibonacci::run(10, 0), 55);
    assert_eq!(recursive_fibonacci::run(20, 7), 6772);
}

fn case(id: &str, iterations: u64, seed: u64) -> Case {
    Case { id: id.to_string(), iterations, seed, expected: 0 }
}

fn contract() -> Contract {
    Contract {
        id: "arithmetic".to_string(),
        algorithm: "x = (17 * x + i) % 65521".to_string(),
        numeric_constraints: "u64 values below 2^16".to_string(),
        limits: Limits { max_iterations: 1_000_000, max_seed: 65_535 },
        cases: vec![case("small", 10, 3), case("large", 1_000_000, 65_535)],
    }
}

#[test]
fn ids_are_lower_case_ascii_digits_dashes_and_underscores() {
    assert!(valid_id("recursive_fibonacci"));
    assert!(valid_id("a-1"));
    assert!(!valid_id(""));
    assert!(!valid_id("not a valid id"));
    assert!(!valid_id("Upper"));
    assert!(!valid_id("caf\u{e9}"));
}

#[test]
fn contract_enforces_limits_and_case_bounds() {
    let mut c = contract();
    assert_eq!(c.validate(), Ok(()));
    c.cases[0].iterations = 1_000_001;
    assert_eq!(c.validate(), Err(ContractError::CaseExceedsLimits));
    c.cases[0].iterations = 0;
    c.limits.max_seed = 0;
    assert_eq!(c.validate(), Err(ContractError::CaseExceedsLimits));
    c.limits.max_iterations = 1_000_001;
    assert_eq!(c.validate(), Err(ContractError::InvalidLimits));
    let mut c = contract();
    c.limits.max_seed = 65_536;
    assert_eq!(c.validate(), Err(ContractError::InvalidLimits));
}

#[test]
fn contract_rejects_invalid_ids_and_duplicate_cases() {
    let mut invalid = contract();
    invalid.id = "not a valid id".into();
    assert_eq!(invalid.validate(), Err(ContractError::InvalidId));

    let mut duplicate = contract();
    duplicate.cases[1].id = duplicate.cases[0].id.clone();
    assert_eq!(duplicate.validate(), Err(ContractError::InvalidCaseId));

    let mut bad_case = contract();
    bad_case.cases[1].id = "Bad".into();
    assert_eq!(bad_case.validate(), Err(ContractError::InvalidCaseId));
}

#[test]
fn contract_requires_descriptions_and_multiple_cases() {
    let mut too_few = contract();
    too_few.cases.truncate(1);
    assert_eq!(too_few.validate(), Err(ContractError::TooFewCases));

    let mut undocumented = contract();
    undocumented.algorithm.clear();
    assert_eq!(undocumented.validate(), Err(ContractError::MissingDescription));

    let mut large_seed = contract();
    large_seed.cases[0].seed = 65_536;
    assert_eq!(large_seed.validate(), Err(ContractError::CaseExceedsLimits));
}

#[test]
fn the_first_broken_rule_is_reported() {
    let mut c = contract();
    c.id = String::new();
    c.cases.clear();
    assert_eq!(c.validate(), Err(ContractError::InvalidId));
    let mut c = contract();
    c.cases[0].id = "x y".into();
    c.cases[1].iterations = u64::MAX;
    assert_eq!(c.validate(), Err(ContractError::InvalidCaseId));
}

use vihaco::workloads::registry::{run_native, validate_native, CaseError, NativeError};

#[test]
fn natives_are_found_by_workload_id() {
    assert_eq!(run_native("arithmetic", 10, 3), Ok(20446));
    assert_eq!(run_native("arith_pow_squaring", 10, 3), Ok(59049));
    assert_eq!(run_native("bitwise", 10, 3), Ok(3));
    assert_eq!(run_native("branching", 10, 3), Ok(19));
    assert_eq!(run_native("dispatch", 10, 3), Ok(3109));
    assert_eq!(run_native("large_frame", 10, 3), Ok(383444));
    assert_eq!(run_native("recursive_fibonacci", 10, 3), Ok(58));
    assert_eq!(run_native("missing", 1, 1), Err(NativeError::UnknownWorkload));
    assert_eq!(run_native("recursive_fibonacci", 1_000_000, 1), Err(NativeError::ResultTooLarge));
}

#[test]
fn contract_cases_are_checked_against_the_native_results() {
    let mut c = contract();
    c.cases[0].expected = 20446;
    c.cases[1].iterations = 1000;
    c.cases[1].seed = 12345;
    c.cases[1].expected = 46075;
    assert_eq!(c.validate(), Ok(()));
    assert_eq!(validate_native(&c), Ok(()));
    c.cases[1].expected = 1;
    assert_eq!(validate_native(&c), Err(CaseError::Mismatch(1)));
    c.id = "unknown".to_string();
    assert_eq!(validate_native(&c), Err(CaseError::Native(0, NativeError::UnknownWorkload)));
}

fn fibonacci_contract() -> Contract {
    Contract {
        id: "recursive_fibonacci".to_string(),
        algorithm: "fib(iterations) + seed".to_string(),
        numeric_constraints: "iterations at most 20".to_string(),
        limits: Limits { max_iterations: 20, max_seed: 65_535 },
        cases: vec![case("small", 10, 3), case("largest", 20, 65_535)],
    }
}

#[test]
fn contract_enforces_workload_specific_limits() {
    let mut contract = fibonacci_contract();
    assert!(contract.validate().is_ok());
    contract.cases[0].iterations = 21;
    assert!(contract.validate().is_err());
    contract.cases[0].iterations = 0;
    contract.limits.max_seed = 0;
    assert!(contract.validate().is_err());
    contract.limits.max_iterations = 1_000_001;
    assert!(contract.validate().is_err());
}

#[test]
fn contract_requires_multiple_bounded_cases() {
    let mut too_few = contract();
    too_few.cases.truncate(1);
    assert!(too_few.validate().is_err());

    let mut too_many_iterations = contract();
    too_many_iterations.cases[0].iterations = 1_000_001;
    assert!(too_many_iterations.validate().is_err());

    let mut large_seed = contract();
    large_seed.cases[0].seed = 65_536;
    assert!(large_seed.validate().is_err());
}

use vihaco::workloads::bundle::{add_bundle, discovered, is_native, BundleError, Workload};

#[test]
fn bundles_need_a_valid_contract_and_a_native_implementation() {
    assert!(is_native("large_frame"));
    assert!(!is_native("large-frame"));
    let w = Workload::from_contract(contract()).unwrap();
    assert_eq!(w.contract.id, "arithmetic");
    let mut bad = contract();
    bad.cases.truncate(1);
    assert_eq!(
        Workload::from_contract(bad).unwrap_err(),
        BundleError::Contract(ContractError::TooFewCases)
    );
    let mut unknown = contract();
    unknown.id = "unknown".to_string();
    assert_eq!(Workload::from_contract(unknown).unwrap_err(), BundleError::NotCompiled);
}

#[test]
fn discovery_refuses_duplicate_ids_and_an_empty_set() {
    assert_eq!(discovered(Vec::new()).unwrap_err(), BundleError::NoBundles);
    let mut found = Vec::new();
    assert_eq!(add_bundle(&mut found, Workload::from_contract(contract()).unwrap()), Ok(()));
    assert_eq!(
        add_bundle(&mut found, Workload::from_contract(fibonacci_contract()).unwrap()),
        Ok(())
    );
    assert_eq!(
        add_bundle(&mut found, Workload::from_contract(fibonacci_contract()).unwrap()),
        Err(BundleError::DuplicateId(1))
    );
    assert_eq!(found.len(), 2);
    let all = discovered(found).unwrap();
    assert_eq!(all[0].contract.id, "arithmetic");
    assert_eq!(all[1].contract.id, "recursive_fibonacci");
}
