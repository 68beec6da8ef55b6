//! The MT19937 Mersenne Twister: a deterministic generator of 32-bit words,
//! with its two seeding algorithms and its two extraction algorithms proved
//! against a mathematical model of the recurrence.
pub mod model;
pub mod prng;
pub mod laws;

pub use prng::Prng;
