//! Steppable classical-control test beds: space descriptors, reproducible
//! seeding, the render-mode frame policy, and episode termination
//! bookkeeping, each with verified contracts.

pub mod episode;
pub mod reset_bounds;
pub mod spaces;
pub mod utils;
