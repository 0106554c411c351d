//! Hand-written instances of the accessor surface that the generators
//! emit, one module per representative shape; here the projections behind
//! that surface are verified against the `Projection` contract, and the
//! tests exercise them.

pub mod bag;
pub mod basic;
pub mod msg;
pub mod named;
pub mod tuple;
pub mod user;
