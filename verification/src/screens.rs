//! The screens of the application: the connection screen and the main
//! (query) screen.
pub mod connection;
pub mod main;
