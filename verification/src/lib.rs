pub mod error;
pub mod open;
pub mod options;
