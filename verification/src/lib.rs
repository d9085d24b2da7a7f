//! Konno-Ohmachi spectral smoothing: the verified core.
//!
//! The smoothing itself is floating-point arithmetic on a frequency axis and a
//! spectrum. This crate holds what decides *how* that arithmetic is laid out:
//! which inputs are accepted and with which error, where the zero frequency of
//! an axis sits, which weight of each window is forced to one or to zero, and
//! the dense cache of windows that a `Smoother` keeps.

pub mod smoother;
pub mod validation;
pub mod window;
pub mod zero_frequency;
