//! A lock-free, shared audio clock.
//!
//! One realtime writer advances a cumulative frame counter and the musical
//! beat position derived from it; any number of readers observe the current
//! position from other threads without blocking, locking, or allocating.
//!
//! All musical quantities are exact integers: tempos are counted in
//! thousandths of a beat per minute, and beat positions are fractions whose
//! numerator accumulates `tempo * frames` products over a fixed denominator.
//! The arithmetic the writer performs, and the laws the clock obeys over any
//! sequence of operations, are stated and proved in [`model`]; the handles
//! themselves live in [`clock`].

pub mod clock;
pub mod model;

pub use clock::audio_clock;
pub use clock::ClockConsumer;
pub use clock::ClockUpdater;
pub use clock::Ratio;
pub use clock::DURATION_DEN;
pub use clock::TEMPO_SCALE;
