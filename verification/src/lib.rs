//! A terminal client for databases: the saved connections, the screens and
//! widgets of the user interface, and the decisions taken on each key press
//! and each command, with their contracts.
pub mod text;
pub mod events;
pub mod textarea;
pub mod layout;
pub mod widgets;
pub mod render;
pub mod data;
pub mod screens;
pub mod app;
