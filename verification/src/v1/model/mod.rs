//! The models of version 1.
pub mod user;
pub mod canteen;
