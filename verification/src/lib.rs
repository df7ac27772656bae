pub mod client;
pub mod faces;
