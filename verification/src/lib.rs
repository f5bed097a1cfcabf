//! Formatting and layout for a terminal system-summary display: a logo block
//! on the left, labelled facts about the machine on the right.

pub mod art;
pub mod color;
pub mod decimal;
pub mod disk;
pub mod escape;
pub mod info;
pub mod layout;
pub mod lines;
pub mod logo;
pub mod network;
pub mod text;
pub mod usage;
pub mod written;
