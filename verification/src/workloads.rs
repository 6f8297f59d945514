//! The benchmark workloads: their native reference implementations, their
//! contracts, and the check of a contract's cases against the natives.
//!
//! Every workload is a function of an iteration count and a seed that
//! returns one `u64`; each module states its result as a spec function of
//! those two inputs.
pub mod arith_pow_squaring;
pub mod arithmetic;
pub mod bitwise;
pub mod branching;
pub mod dispatch;
pub mod large_frame;
pub mod recursive_fibonacci;
pub mod contract;
pub mod registry;
pub mod bundle;
