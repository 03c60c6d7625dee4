//! A verified core for a process supervisor.
//!
//! The library models the supervisor's registry of launched processes: each
//! record holds the launch command, the lifecycle status, and the buffered
//! output lines, together with a best-effort fan-out channel for live log
//! subscribers.  All state transitions (creation, output collection, status
//! resolution, deletion) are verified; the surrounding transport and the
//! operating-system calls live outside the library and drive it with plain
//! values.

pub mod api;
pub mod fanout;
pub mod ids;
pub mod laws;
pub mod record;
pub mod registry;
pub mod status;

pub use api::CreateProcess;
pub use api::DeleteOutcome;
pub use api::Process;
pub use record::ProcessRecord;
pub use registry::Registry;
pub use status::ProcessStatus;
