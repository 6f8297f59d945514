//! A workload's contract: its identity, its limits and its validation cases.
use vstd::prelude::*;

verus! {

/// One shared input and its independently specified expected result.
#[derive(Debug, Clone)]
pub struct Case {
    pub id: String,
    pub iterations: u64,
    pub seed: u64,
    pub expected: u64,
}

/// Bounds that every case of a workload keeps.
#[derive(Debug, Clone, Copy)]
pub struct Limits {
    pub max_iterations: u64,
    pub max_seed: u64,
}

/// A workload's description, limits and cases.
#[derive(Debug, Clone)]
pub struct Contract {
    pub id: String,
    pub algorithm: String,
    pub numeric_constraints: String,
    pub limits: Limits,
    pub cases: Vec<Case>,
}

/// Why a contract was rejected.
#[derive(Debug, Clone, Copy, PartialEq, Eq)]
pub enum ContractError {
    /// The workload id is empty or holds a character outside `[a-z0-9_-]`.
    InvalidId,
    /// The algorithm or the numeric constraints are empty.
    MissingDescription,
    /// There are fewer than two cases.
    TooFewCases,
    /// The limits allow more than a million iterations or a seed above 65535.
    InvalidLimits,
    /// A case id is invalid or repeats an earlier case's id.
    InvalidCaseId,
    /// A case exceeds the contract's limits.
    CaseExceedsLimits,
}

/// A character that may appear in an id: a lower-case ASCII letter, an
/// ASCII digit, `-` or `_`.
pub open spec fn id_char(c: char) -> bool {
    ('a' <= c && c <= 'z') || ('0' <= c && c <= '9') || c == '-' || c == '_'
}

/// A non-empty id made of id characters only. All of them are ASCII, so
/// this is the same as asking it of every byte of the id's encoding.
pub open spec fn valid_id_spec(id: Seq<char>) -> bool {
    id.len() > 0 && forall|i: int| 0 <= i < id.len() ==> id_char(#[trigger] id[i])
}

/// The largest iteration limit a contract may declare.
pub open spec fn iteration_ceiling() -> int {
    1_000_000
}

/// The error of case `k`, given the cases before it.
pub open spec fn case_error(cases: Seq<Case>, limits: Limits, k: int) -> Option<ContractError> {
    let case = cases[k];
    if !valid_id_spec(case.id@) || exists|j: int| 0 <= j < k && #[trigger] cases[j].id@ == case.id@ {
        Some(ContractError::InvalidCaseId)
    } else if case.iterations > limits.max_iterations || case.seed > limits.max_seed {
        Some(ContractError::CaseExceedsLimits)
    } else {
        None
    }
}

/// The error of the first failing case among the first `n`.
pub open spec fn cases_error(cases: Seq<Case>, limits: Limits, n: nat) -> Option<ContractError>
    decreases n,
{
    if n == 0 {
        None
    } else {
        match cases_error(cases, limits, (n - 1) as nat) {
            Some(e) => Some(e),
            None => case_error(cases, limits, n - 1),
        }
    }
}

/// Once a prefix of the cases has an error, every longer prefix has the same.
proof fn lemma_cases_error_stable(cases: Seq<Case>, limits: Limits, k: nat, m: nat)
    requires
        k <= m,
        cases_error(cases, limits, k) is Some,
    ensures
        cases_error(cases, limits, m) == cases_error(cases, limits, k),
    decreases m - k,
{
    if k < m {
        lemma_cases_error_stable(cases, limits, k, (m - 1) as nat);
    }
}

/// The first rule that `c` breaks, checked in order: the id, the
/// description, the number of cases, the limits, then each case in turn.
pub open spec fn contract_error(c: Contract) -> Option<ContractError> {
    if !valid_id_spec(c.id@) {
        Some(ContractError::InvalidId)
    } else if c.algorithm@.len() == 0 || c.numeric_constraints@.len() == 0 {
        Some(ContractError::MissingDescription)
    } else if c.cases@.len() < 2 {
        Some(ContractError::TooFewCases)
    } else if c.limits.max_iterations > iteration_ceiling() || c.limits.max_seed >= 65536 {
        Some(ContractError::InvalidLimits)
    } else {
        cases_error(c.cases@, c.limits, c.cases@.len())
    }
}

/// Whether `id` is a valid workload or case id.
pub fn valid_id(id: &str) -> (b: bool)
    ensures
        b == valid_id_spec(id@),
{
    let n = id.unicode_len();
    if n == 0 {
        return false;
    }
    let mut i: usize = 0;
    while i < n
        invariant
            n == id@.len(),
            0 <= i <= n,
            forall|j: int| 0 <= j < i ==> id_char(#[trigger] id@[j]),
        decreases n - i,
    {
        let c = id.get_char(i);
        if !(('a' <= c && c <= 'z') || ('0' <= c && c <= '9') || c == '-' || c == '_') {
            return false;
        }
        i += 1;
    }
    true
}

/// Whether the id of case `k` repeats the id of an earlier case.
fn repeats_earlier_id(cases: &Vec<Case>, k: usize) -> (b: bool)
    requires
        k < cases@.len(),
    ensures
        b == exists|j: int| 0 <= j < k && #[trigger] cases@[j].id@ == cases@[k as int].id@,
{
    let mut j: usize = 0;
    while j < k
        invariant
            k < cases@.len(),
            0 <= j <= k,
            forall|i: int| 0 <= i < j ==> #[trigger] cases@[i].id@ != cases@[k as int].id@,
        decreases k - j,
    {
        if cases[j].id == cases[k].id {
            return true;
        }
        j += 1;
    }
    false
}

impl Contract {
    /// Checks the contract; on failure, returns the first rule it breaks.
    pub fn validate(&self) -> (r: Result<(), ContractError>)
        ensures
            r == (match contract_error(*self) {
                Some(e) => Err(e),
                None => Ok(()),
            }),
    {
        if !valid_id(self.id.as_str()) {
            return Err(ContractError::InvalidId);
        }
        if self.algorithm.as_str().unicode_len() == 0
            || self.numeric_constraints.as_str().unicode_len() == 0 {
            return Err(ContractError::MissingDescription);
        }
        if self.cases.len() < 2 {
            return Err(ContractError::TooFewCases);
        }
        if !(self.limits.max_iterations <= 1_000_000 && self.limits.max_seed < 65_536) {
            return Err(ContractError::InvalidLimits);
        }
        let mut k: usize = 0;
        while k < self.cases.len()
            invariant
                0 <= k <= self.cases@.len(),
                contract_error(*self) == cases_error(self.cases@, self.limits, self.cases@.len()),
                cases_error(self.cases@, self.limits, k as nat).is_none(),
            decreases self.cases@.len() - k,
        {
            let case = &self.cases[k];
            proof {
                if case_error(self.cases@, self.limits, k as int) is Some {
                    lemma_cases_error_stable(
                        self.cases@,
                        self.limits,
                        (k + 1) as nat,
                        self.cases@.len(),
                    );
                }
            }
            if !valid_id(case.id.as_str()) || repeats_earlier_id(&self.cases, k) {
                return Err(ContractError::InvalidCaseId);
            }
            if case.iterations > self.limits.max_iterations || case.seed > self.limits.max_seed {
                return Err(ContractError::CaseExceedsLimits);
            }
            k += 1;
        }
        Ok(())
    }
}

/// The cases of a valid contract keep the contract's limits, which are at
/// most a million iterations and a seed below 65536.
pub proof fn lemma_valid_case_bounds(c: Contract, k: int)
    requires
        contract_error(c) is None,
        0 <= k < c.cases@.len(),
    ensures
        c.cases@[k].iterations <= c.limits.max_iterations <= 1_000_000,
        c.cases@[k].seed <= c.limits.max_seed < 65_536,
{
    lemma_cases_ok(c.cases@, c.limits, c.cases@.len(), k);
}

/// The cases of a valid contract have valid ids, and no two share one.
pub proof fn lemma_valid_case_ids(c: Contract, i: int, k: int)
    requires
        contract_error(c) is None,
        0 <= i < k < c.cases@.len(),
    ensures
        valid_id_spec(c.cases@[k].id@),
        c.cases@[i].id@ != c.cases@[k].id@,
{
    lemma_cases_ok(c.cases@, c.limits, c.cases@.len(), k);
}

/// Without an error among the first `n` cases, case `k < n` keeps the limits
/// and has a valid id that no earlier case has.
proof fn lemma_cases_ok(cases: Seq<Case>, limits: Limits, n: nat, k: int)
    requires
        cases_error(cases, limits, n) is None,
        0 <= k < n,
        n <= cases.len(),
    ensures
        cases[k].iterations <= limits.max_iterations,
        cases[k].seed <= limits.max_seed,
        valid_id_spec(cases[k].id@),
        forall|j: int| 0 <= j < k ==> #[trigger] cases[j].id@ != cases[k].id@,
    decreases n,
{
    if k < n - 1 {
        lemma_cases_ok(cases, limits, (n - 1) as nat, k);
    }
}

} // verus!
