//! Capsense: a CapsLock tap turns into an input-method switch, a long press
//! keeps the CapsLock behaviour.
pub mod text;
pub mod config;
pub mod keys;
pub mod hook;
pub mod layout;
pub mod ime;
pub mod wide;
pub mod i18n;
pub mod ui;
pub mod startup;
pub mod ipc;
pub mod manager;
pub mod cli;
