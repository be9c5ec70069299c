pub mod dataset;
pub mod infrastructure;
pub mod repositories;
pub mod text;

pub use repositories::{Command, CommandType, Parameter};
