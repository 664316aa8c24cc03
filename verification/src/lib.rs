//! Key handling, keymap display and backend request types of a terminal
//! music player, together with the podcast and continuation queries of its
//! web API client, with their behaviour stated and proved in Verus.
pub mod actionhandler;
pub mod common;
pub mod config;
pub mod keyaction;
pub mod keymap;
pub mod keys;
pub mod logger;
pub mod logwidget;
pub mod query;
pub mod server;
