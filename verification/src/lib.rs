//! Handlers behind the commands that a desktop shell offers to its user interface.

pub mod devtools;
pub mod files;
pub mod greeting;

pub use devtools::{open_devtools, DevtoolsAction};
pub use files::{read_file_reply, save_file_reply};
pub use greeting::greet;
