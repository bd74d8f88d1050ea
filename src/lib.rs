//! A verified model of the call bridge between a host scripting runtime and an
//! embedded WebAssembly engine: value marshalling, argument adaptation,
//! result acceptance, the held-exception side channel and the scoped caller
//! context.
pub mod value;
pub mod params;
pub mod store;
pub mod trampoline;
pub mod func;
pub mod laws;
