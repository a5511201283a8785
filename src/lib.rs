//! Device-session core of a wireless JIT enabler: per-device operation queues,
//! the keep-alive registry, the launch/attach session state machine and the
//! wire formats spoken to local helper daemons.

pub mod queue;
pub mod mount;
pub mod debug_server;
pub mod retry;
pub mod keyed;
pub mod heartbeat;
pub mod tunneld;
pub mod debug_command;
pub mod session;
pub mod response;
pub mod apps;
pub mod netmuxd;
pub mod register;
pub mod version;
