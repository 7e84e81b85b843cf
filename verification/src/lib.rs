//! Decision logic of a detached-stdin relay.
//!
//! A *host* owns a named endpoint and a child process and moves bytes in three
//! directions; an *injector* connects to that endpoint by label and feeds its own
//! input into it. Everything that touches the operating system is left to the
//! caller: the caller performs an action, reports what happened as an event, and
//! the machines in this crate decide what comes next.
//!
//! - [`endpoint`]: from a label to the endpoint's name.
//! - [`lane`]: the four relay loops and the streams at their ends.
//! - [`failure`]: the steps that can fail, their kinds and their messages.
//! - [`relay`]: one relay loop, and why it keeps the order of its bytes.
//! - [`host`]: the host, from claiming the name to removing it.
//! - [`injector`]: the injector, from connecting to the end of its input.
//! - [`invocation`]: the two modes of the command line and the usage summary.

pub mod endpoint;
pub mod failure;
pub mod host;
pub mod injector;
pub mod invocation;
pub mod lane;
pub mod relay;

pub use endpoint::socket_path;
