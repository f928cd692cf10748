//! Descriptors for the sets of legal actions and observations.

pub mod box_r;
pub mod discrete;
pub mod space;

pub use box_r::BoxR;
pub use discrete::Discrete;
pub use space::Space;
