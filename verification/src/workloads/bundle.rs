//! Workload bundles: a contract accepted together with its native
//! implementation, and the collection of bundles that discovery builds.
use vstd::prelude::*;
use crate::resolve::same_text;
use crate::workloads::contract::{Contract, ContractError, contract_error};
use crate::workloads::registry::native_result;

verus! {

/// Why a bundle, or the collection of bundles, was refused.
#[derive(Debug, Clone, Copy, PartialEq, Eq)]
pub enum BundleError {
    /// The contract breaks one of its rules.
    Contract(ContractError),
    /// No native implementation has the contract's id.
    NotCompiled,
    /// The bundle's id is already taken by the bundle at this index.
    DuplicateId(usize),
    /// No bundle was found.
    NoBundles,
}

/// A validated bundle whose workload has a native implementation.
#[derive(Debug, Clone)]
pub struct Workload {
    pub contract: Contract,
}

/// Whether a native implementation has id `id`.
pub open spec fn has_native(id: Seq<char>) -> bool {
    native_result(id, 0, 0) is Some
}

/// No two workloads of `ws` share an id.
pub open spec fn distinct_ids(ws: Seq<Workload>) -> bool {
    forall|i: int, j: int|
        0 <= i < j < ws.len() ==> #[trigger] ws[i].contract.id@ != #[trigger] ws[j].contract.id@
}

/// Whether a native implementation has id `id`.
pub fn is_native(id: &str) -> (b: bool)
    ensures
        b == has_native(id@),
{
    same_text(id, "arith_pow_squaring") || same_text(id, "arithmetic") || same_text(id, "bitwise")
        || same_text(id, "branching") || same_text(id, "dispatch") || same_text(id, "large_frame")
        || same_text(id, "recursive_fibonacci")
}

impl Workload {
    /// The bundle of `contract`, when the contract keeps its rules and its
    /// workload has a native implementation.
    pub fn from_contract(contract: Contract) -> (r: Result<Workload, BundleError>)
        ensures
            match contract_error(contract) {
                Some(e) => r == Err::<Workload, BundleError>(BundleError::Contract(e)),
                None => if has_native(contract.id@) {
                    r matches Ok(w) && w.contract == contract
                } else {
                    r == Err::<Workload, BundleError>(BundleError::NotCompiled)
                },
            },
    {
        match contract.validate() {
            Err(e) => return Err(BundleError::Contract(e)),
            Ok(()) => {},
        }
        if !is_native(contract.id.as_str()) {
            return Err(BundleError::NotCompiled);
        }
        Ok(Workload { contract })
    }
}

/// The index of the first workload of `ws` with id `id`.
pub open spec fn first_with_id(ws: Seq<Workload>, id: Seq<char>) -> Option<int>
    decreases ws.len(),
{
    if ws.len() == 0 {
        None
    } else {
        match first_with_id(ws.drop_last(), id) {
            Some(i) => Some(i),
            None => if ws.last().contract.id@ == id {
                Some(ws.len() - 1)
            } else {
                None
            },
        }
    }
}

/// `first_with_id` finds an index with the id, and only misses when no
/// workload has it.
proof fn lemma_first_with_id(ws: Seq<Workload>, id: Seq<char>)
    ensures
        match first_with_id(ws, id) {
            Some(i) => 0 <= i < ws.len() && ws[i].contract.id@ == id,
            None => forall|k: int| 0 <= k < ws.len() ==> #[trigger] ws[k].contract.id@ != id,
        },
    decreases ws.len(),
{
    if ws.len() > 0 {
        lemma_first_with_id(ws.drop_last(), id);
        assert forall|k: int| 0 <= k < ws.len() - 1 implies #[trigger] ws[k] == ws.drop_last()[k] by {}
    }
}

/// Adds `w` to the bundles found so far, unless its id is taken.
pub fn add_bundle(workloads: &mut Vec<Workload>, w: Workload) -> (r: Result<(), BundleError>)
    ensures
        match first_with_id(old(workloads)@, w.contract.id@) {
            Some(i) => r == Err::<(), BundleError>(BundleError::DuplicateId(i as usize))
                && final(workloads)@ == old(workloads)@,
            None => r is Ok && final(workloads)@ == old(workloads)@.push(w),
        },
        distinct_ids(old(workloads)@) ==> distinct_ids(final(workloads)@),
{
    let ghost ws = workloads@;
    let mut k: usize = 0;
    while k < workloads.len()
        invariant
            workloads@ == ws,
            0 <= k <= ws.len(),
            first_with_id(ws.subrange(0, k as int), w.contract.id@) is None,
        decreases ws.len() - k,
    {
        proof {
            assert(ws.subrange(0, k + 1).drop_last() == ws.subrange(0, k as int));
        }
        if same_text(workloads[k].contract.id.as_str(), w.contract.id.as_str()) {
            proof {
                lemma_first_with_id_prefix(ws, w.contract.id@, (k + 1) as int);
            }
            return Err(BundleError::DuplicateId(k));
        }
        k += 1;
    }
    proof {
        assert(ws.subrange(0, ws.len() as int) == ws);
        lemma_first_with_id(ws, w.contract.id@);
    }
    workloads.push(w);
    Ok(())
}

/// Once the prefix of length `n` has a workload with the id, the whole
/// sequence finds the same one.
proof fn lemma_first_with_id_prefix(ws: Seq<Workload>, id: Seq<char>, n: int)
    requires
        0 <= n <= ws.len(),
        first_with_id(ws.subrange(0, n), id) is Some,
    ensures
        first_with_id(ws, id) == first_with_id(ws.subrange(0, n), id),
    decreases ws.len() - n,
{
    if n < ws.len() {
        assert(ws.subrange(0, n + 1).drop_last() == ws.subrange(0, n));
        lemma_first_with_id_prefix(ws, id, n + 1);
    } else {
        assert(ws.subrange(0, n) == ws);
    }
}

/// The bundles that discovery found, when there is at least one.
pub fn discovered(workloads: Vec<Workload>) -> (r: Result<Vec<Workload>, BundleError>)
    ensures
        workloads@.len() == 0 ==> r == Err::<Vec<Workload>, BundleError>(BundleError::NoBundles),
        workloads@.len() > 0 ==> (r matches Ok(ws) && ws@ == workloads@),
{
    if workloads.len() == 0 {
        Err(BundleError::NoBundles)
    } else {
        Ok(workloads)
    }
}

} // verus!
