//! Verified core of a small CUDA toolkit: the tensor model, the error type
//! and status checks of the CUDA driver and NVVM bindings, and the NVVM IR
//! generator behind the `#[cuda]` kernel attribute.
pub mod text;
pub mod tensor;
pub mod ast;
pub mod ir_spec;
pub mod codegen;
pub mod kernel;
pub mod error;
pub mod cuda;
pub mod nvvm;
pub mod ir_laws;
pub mod walk_check;
