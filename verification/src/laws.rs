//! What the library promises, said of its functions' arguments and results.
//!
//! Each law speaks of any call of a function: where the function was given
//! these arguments and came back with this result, then the two are related as
//! stated. Times, sizes and limits are written out in figures.

pub mod clients;
pub mod configuring;
pub mod publishing;
pub mod serving;
pub mod subscribing;
pub mod transporting;
