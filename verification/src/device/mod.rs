pub mod error;
pub mod relay;
