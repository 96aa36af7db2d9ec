pub mod command;
pub mod command_register;
