//! CPU references and integer helpers of the GPU benchmarks.
pub mod histogram;
pub mod scan;
pub mod spmv;
