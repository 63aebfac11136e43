//! A greeting that goes out through a host-supplied capability, and a naive
//! recursive Fibonacci computation over signed 32-bit integers.

pub mod fib;
pub mod greet;

pub use fib::fib;
pub use fib::spec_fib;
pub use greet::greet;
pub use greet::greeting;
pub use greet::Host;
pub use greet::RecordingHost;
