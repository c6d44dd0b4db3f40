//! Native menus of the Padloc desktop application.
//!
//! [`defaults::build_menu`] lays out the menu bar of a platform as a tree of
//! entries, and [`dispatch::on_menu_event`] decides what the application does
//! when one of its own entries is chosen. Both are plain functions of their
//! arguments: handing the tree to a window runtime and opening addresses is
//! left to the program that uses them.

pub mod defaults;
pub mod dispatch;
pub mod laws;
pub mod menu;
pub mod platform;
pub mod tree;
