//! Conditioning of a noisy, quantized position reading (for example an ADC
//! sample from a potentiometer) into a clean output value for a real-time
//! control loop: adaptive smoothing, deadband suppression, linear rescaling
//! with clamping, and movement/velocity detection.

pub mod conditioner;
pub mod filters;
pub mod laws;
pub mod scale;

pub use conditioner::PotConditioner;
pub use scale::rescale_and_clamp;
