pub mod commands;
pub mod constants;
pub mod frames;
pub mod link;
