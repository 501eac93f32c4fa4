//! Embedding of compiled bytecode modules: the decisions behind instantiation,
//! export resolution, signature-checked binding and raw memory views.
pub mod signature;
pub mod error;
pub mod memory;
pub mod export;
pub mod binding;
pub mod context;
pub mod instantiate;
