//! Control and scheduling logic of a realtime noise-synthesis engine: the
//! session handle and its command queue, the delivery ring's fill policy, the
//! double-buffered noise source, the overlap-add block bookkeeping and the
//! notch-sweep configuration rules.
pub mod delivery;
pub mod frames;
pub mod loudness;
pub mod noise_source;
pub mod ola;
pub mod preset;
pub mod session;
pub mod sweep;
pub mod telemetry;
