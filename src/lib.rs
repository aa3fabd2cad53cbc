//! Measurement evaluation engine and parameterized quantum program dispatcher.
//!
//! Raw measurement output (bit registers, shots by slots) is reduced to exact
//! Pauli-product values, measurement inputs are validated when they are built,
//! and quantum programs bind their free parameters before a measurement is handed
//! to an execution backend.
pub mod circuit;
pub mod error;
pub mod evaluate;
pub mod formula;
pub mod input;
pub mod measurement;
pub mod pauli;
pub mod program;
pub mod registers;
pub mod version;
