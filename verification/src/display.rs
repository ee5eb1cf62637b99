pub mod current;
pub mod day;
pub mod historical;
pub mod hourly;
pub mod line;
pub mod week;
pub mod product;
