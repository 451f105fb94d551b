//! Decision logic of a directory watcher: the watcher's configuration, the rules that
//! decide which file-system events reach subscribers, and the monitor's bookkeeping of
//! poisoning, errors and periodic health checks.

pub mod control;
pub mod event;
pub mod monitor;
pub mod options;
pub mod paths;

pub use event::{EventFilter, EventKind, EventRoute, MonitorMode};
pub use monitor::{HealthAction, HealthCheck, HealthEvent, RawFileMonitor};
pub use options::{Options, RecursiveMode};
