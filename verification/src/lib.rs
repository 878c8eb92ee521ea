//! The logic of the Kannaka dashboard: the state of its eight tabs, what keys,
//! commands and the processes around it do to that state, and the rows that are
//! seen of it.
//!
//! Every step is a function from the state and an event to the next state and the
//! actions to be done; nothing here touches a terminal, a process or a clock.

pub mod action;
pub mod agent;
pub mod app;
pub mod bar;
pub mod buffer;
pub mod bus;
pub mod chat;
pub mod cli;
pub mod clock;
pub mod command;
pub mod config;
pub mod control;
pub mod cosmos;
pub mod harness;
pub mod json;
pub mod keys;
pub mod laws;
pub mod log;
pub mod palette;
pub mod payload;
pub mod polls;
pub mod prompts;
pub mod reports;
pub mod settings;
pub mod submit;
pub mod text;
pub mod view;
