pub mod command;
pub mod parameter;

pub use command::{replace_param_token, Command, CommandType};
pub use parameter::Parameter;
