//! The request that describes one transaction to build.

pub mod bitcoin;
