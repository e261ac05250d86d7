pub mod config;
pub mod mem;
pub mod process;
pub mod text;
