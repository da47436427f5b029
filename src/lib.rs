//! Interactive chooser for recently changed local branches: the selection
//! list, the text filter, the delete confirmation and the key dispatch that
//! ties them together.
pub mod chooser;
pub mod controller;
pub mod display;
pub mod filter;
pub mod git;
pub mod list;
pub mod text;

pub use chooser::{App, NoSelectionError};
pub use list::StatefulList;
