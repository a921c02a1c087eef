//! Runtime calls on a light client: calls on blocks whose state is held locally, and calls on
//! other blocks checked against a storage proof.

pub mod call_executor;
pub mod error;
pub mod light;
pub mod primitives;
pub mod state;
