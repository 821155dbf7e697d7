pub mod commands;
pub mod text;
pub mod utils;
