//! A transparent TCP forwarding proxy's connection-handling core.
//!
//! The library holds the decisions: how a zero-copy buffer fills and drains,
//! when a connection's transfer step is over, which transfer a readiness
//! event asks for, and when a connection is torn down. The system calls are
//! made by the caller, who reports each outcome back.

pub mod config;
pub mod connection;
pub mod pipe_buf;
pub mod proxy;

pub use config::{parse_args, split_address, ArgError, Config, HostPort};
pub use pipe_buf::{Outcome, PipeBuf, Progress, SysResult};
pub use connection::{Action, Context, Direction, Phase, Terminal, Transfer};
pub use proxy::{Owner, PollDesp, Proxy, Readiness, LISTEN_TOKEN, MAX_SLOTS};
