pub mod calendar;
pub mod clean;
pub mod codec;
pub mod error;
pub mod join;
pub mod model;
pub mod zcta;
