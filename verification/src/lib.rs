//! A minimal stack-based virtual machine for pre-decoded WebAssembly-style
//! function bodies: a typed value model, a store that instantiates function
//! instances from decoded module sections, and an interpreter core with call
//! frames, shared operand stack, and stack unwinding on function return.

pub mod error;
pub mod instruction;
pub mod laws;
pub mod module;
pub mod runtime;
pub mod store;
pub mod types;
pub mod value;
