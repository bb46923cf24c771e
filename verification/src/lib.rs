//! Settlement routine that turns a native-token payment into a lottery ticket:
//! it decides which outbound instructions to emit, in which order and with
//! which amounts, and proves those decisions against a mathematical model.

pub mod amount;
pub mod asset;
pub mod contract;
pub mod error;
pub mod helpers;
pub mod instruction;
pub mod msg;
pub mod state;
pub mod swap;
