//! Functions, structures and traits designed to reduce complex interactions.

pub mod renderer;
pub mod seeding;
pub mod structs;
pub mod util_fns;
