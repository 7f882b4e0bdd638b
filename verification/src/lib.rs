//! Three small verified numeric kernels: a naive recursive Fibonacci
//! computation, a trial-division primality test, and a dense product of two
//! constant-filled square matrices.
//!
//! Each kernel is pure and stateless, and each carries a contract that pins
//! its result down exactly. The host-boundary marshaling (the WebAssembly
//! binding layer) is not part of this library.

pub mod fib;
pub mod matrix;
pub mod primes;

pub use fib::fibonacci;
pub use matrix::matrix_multiply;
pub use primes::is_prime;
