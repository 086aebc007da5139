//! A first-in-first-out queue built from two vectors, with amortized
//! constant-time `push` and `pop`.

pub mod laws;
pub mod queue;

pub use queue::Queue;
