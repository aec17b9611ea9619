//! A constant-product automated market maker: the rules that decide what
//! each instruction of a pool does, with contracts proved by Verus.
pub mod constants;
pub mod error;
pub mod state;
pub mod instructions;
pub mod transfer;
pub mod laws;
