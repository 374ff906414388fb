pub mod navigator;
pub mod report;
pub mod station;
pub mod weather;
