pub mod commands;
pub mod listing;
pub mod model;
pub mod process;
pub mod progress;
pub mod reports;
pub mod search;
pub mod text;
