pub mod error;
pub mod generic;
pub mod mock;
