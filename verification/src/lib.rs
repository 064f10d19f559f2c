//! Request and response logic of a small web service for canteens and users.
pub mod text;
pub mod params;
pub mod v1;
pub mod util;
pub mod startup;
