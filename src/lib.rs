//! Time-released token allocations: a vesting calculator, a fee engine and
//! the lifecycle rules of a stream, with their contracts proved.

pub mod address;
pub mod arith;
pub mod cancel_stream;
pub mod create_stream;
pub mod error;
pub mod fees;
pub mod metrics;
pub mod stream;
pub mod vesting;
pub mod withdraw;
