//! Repeated TCP-port reachability probing: the decisions of the probe loop,
//! the outcome counters and their report, host resolution and configuration
//! checks.
pub mod cli;
pub mod error;
pub mod host;
pub mod metrics;
pub mod probe;
pub mod text;
pub mod verbosity;

pub use cli::{Args, Cli, _count_true, validate_host};
pub use error::{Error, Handling, SourceError, handle_error};
pub use host::{Host, IpAddress, Resolution, SocketAddress, from_lookup, to_socket};
pub use metrics::Metrics;
pub use probe::{
    AttemptPlan, Farewell, Reaction, attempt_prefix, final_report, handle_results, interrupted,
    next_attempt, settle_attempt,
};
pub use verbosity::{LevelFilter, Verbosity};
