pub mod arith;
pub mod cosmos;
pub mod cpumask;
pub mod defs;
pub mod simple;
