//! Verified configuration and lifecycle core for a binding to a native
//! inference engine.
//!
//! The engine is driven through opaque handles and foreign calls. What is
//! decided before and around those calls is decided here, and proved:
//! which calls a configuration makes and in what order, that a faulty
//! configuration makes none, that every string crosses the boundary
//! terminated, and what a predictor may do in each state of its life. The
//! calls themselves are made outside this crate, by the owner of the real
//! handles, from the plain values that this crate hands over.

pub mod common;
pub mod config;
pub mod predictor;
pub mod tensor;
pub mod utils;

pub use predictor::Predictor;
pub use tensor::Tensor;
