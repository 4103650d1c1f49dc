pub mod errors;
pub mod eventspec;
pub mod focus;
pub mod keymap;
pub mod numparse;
pub mod schedule;
