//! Core logic of a small ptrace-based debugger: decoding of wait statuses,
//! the x86-64 register table, the register file of a traced process, and
//! the decisions the debugger takes around each system call.
#![allow(non_camel_case_types)]

pub mod bindings;
pub mod bit;
pub mod cli;
pub mod editline;
pub mod error;
pub mod register_info;
pub mod pipe;
pub mod process;
pub mod registers;
pub mod text;
pub mod types;

pub use error::Error;
pub use editline::{add_history, history_list};
pub use pipe::Pipe;
pub use process::{Process, ProcessState, StopReason};
pub use register_info::{RegisterId, RegisterInfo, register_info_by_id};
pub use registers::{Registers, UserAreaWrite, Variant};
