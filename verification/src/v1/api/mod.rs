//! Request handling helpers of version 1.
pub mod util;
