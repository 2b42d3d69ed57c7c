//! A privacy-preserving statistics engine.
//!
//! Callers submit numeric observations; the administrator may ask for a noised
//! count or a noised mean, each of which spends part of a finite privacy
//! budget. Every step is a deterministic function of the persisted state and
//! of the call, so that replicas fed the same calls agree bit for bit: the
//! arithmetic is fixed-point, and the randomness is a stream cipher keyed by a
//! hash-chained entropy pool.
pub mod contract;
pub mod dp;
pub mod error;
pub mod fixed_point;
pub mod msg;
pub mod random;
pub mod state;
