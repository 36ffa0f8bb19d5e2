//! Connection management for pooled ODBC connections.
//!
//! The crate holds the decisions a pool's connection manager takes: which
//! handle or error follows from what the driver answered, how a handle is
//! tagged with its commit mode, and how the shared driver environment moves
//! from uninitialized to ready or failed. The driver itself is reached by the
//! caller, who hands in each answer as a plain value.
pub mod mode;
pub mod connection;
pub mod diagnostic;
pub mod error;
pub mod env;
pub mod manager;

pub use crate::connection::ODBCConnection;
pub use crate::diagnostic::Diagnostic;
pub use crate::env::ODBCEnv;
pub use crate::error::ODBCError;
pub use crate::manager::ODBCConnectionManager;
pub use crate::manager::ODBCConnectionManagerTx;
