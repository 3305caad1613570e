//! Verified core of a screen-capture abstraction.
//!
//! Two mutually exclusive native acquisition backends — a desktop-duplication
//! engine and a fallback magnification (region) engine — are unified behind one
//! capture capability. The native engines themselves live outside this crate;
//! the embedding performs the native calls and hands their outcomes to this
//! core as plain values. What is verified here is the decision layer: backend
//! selection and enumeration fallback, the timeout/error-mapping contract,
//! frame memory-layout normalization (stride derivation for the fixed BGRA
//! pixel format), and display classification.

pub mod capture;
pub mod display;
pub mod duplication;
pub mod error;
pub mod frame;
pub mod magnification;

pub use capture::{CaptureTimeout, TraitCapturer};
pub use display::Display;
pub use duplication::Capturer;
pub use error::ErrorKind;
pub use frame::{Frame, Pixfmt};
pub use magnification::CapturerMag;
