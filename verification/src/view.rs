//! What stands on the screen.

pub mod bus;
pub mod chat;
pub mod constellation;
pub mod cosmos;
pub mod dreams;
pub mod frame;
pub mod harness;
pub mod help;
pub mod memory;
pub mod rows;
pub mod status;
