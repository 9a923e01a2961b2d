//! A peephole pass over a GPU shader IR that merges two adjacent moves of zero
//! into an aligned general-purpose register pair into one read of the
//! always-zero special register.

pub mod ir;
pub mod opt_zero;
pub mod lemmas;
