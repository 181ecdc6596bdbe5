pub mod signals;
pub mod strategy;
