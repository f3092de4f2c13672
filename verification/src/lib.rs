//! Command dispatch and validation for a microVM control plane.
//!
//! The service receives one action at a time, checks it against the life-cycle
//! state of the virtual machine and against the rules on CPU topology, memory
//! size and device identity, and either answers at once or names the work that
//! the device handlers or the boot sequence have to do.
//!
//! - `config`: the machine configuration and its rules;
//! - `cmdline`: the kernel command line;
//! - `vm`: the virtual machine as the dispatcher sees it;
//! - `device`: what the actions carry to the device handlers;
//! - `service`: the actions, the answers and the dispatcher;
//! - `error`, `message`: the errors and their texts.

pub mod cmdline;
pub mod config;
pub mod device;
pub mod error;
pub mod message;
pub mod service;
pub mod vm;
