pub mod policy;
pub mod stamps;
