//! A framework for file systems in userspace that speak the FUSE protocol.
pub mod abi;
pub mod errno;
pub mod guarantees;
pub mod init;
pub mod notify;
pub mod op;
pub mod reply;
pub mod server;
pub mod session;
pub mod wire;
