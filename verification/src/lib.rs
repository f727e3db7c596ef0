//! Replays a stored monitor against one historical block of a named network.
//!
//! The crate holds the decisions of one such execution: which monitor is
//! meant, whether it may run on the requested network, which collaborator is
//! to be asked next and with what, and which error a failed stage becomes.
//! The collaborators themselves (network registry, client pool, chain client,
//! filtering engine) stay with the caller, who performs the request that a
//! [`Step`] names and hands the answer back.

pub mod encoding;
pub mod error;
pub mod execution;
pub mod guarantees;
pub mod model;
pub mod text;

pub use encoding::MonitorMatch;
pub use error::{ErrorContext, ErrorKind, ExecutionResult, MonitorExecutionError};
pub use execution::{
    execute_monitor, find_monitor, BlockFiltering, BlockRetrieval, ClientAcquisition, ClientKind,
    Dispatch, NetworkLookup, Step, Target,
};
pub use model::{BlockChainType, Monitor, Network};
pub use text::decimal;
