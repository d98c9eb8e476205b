pub mod bytes;
pub mod model;
pub mod parse;
pub mod relaunch;
pub mod terminal;
