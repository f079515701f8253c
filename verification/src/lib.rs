//! Bridge between a file-backed sync configuration and a dynamically typed
//! automation server: typed values, name resolution, dispatch, the
//! connection lifecycle, the response scanner, and the delivery of balances
//! to a spreadsheet webhook.
//!
//! Nothing here talks to a server. The library says what is to be done and
//! is told what came of it; whoever uses it does the talking.

pub mod accounts;
pub mod coercion;
pub mod config;
pub mod dispatch;
pub mod file_mode;
pub mod guarantees;
pub mod lifecycle;
pub mod numbers;
pub mod preferences;
pub mod protocol;
pub mod qbfc;
pub mod response;
pub mod safe_variant;
pub mod sheets;
pub mod sync_run;
pub mod text;
pub mod wide;

pub use accounts::AccountInfo;
pub use file_mode::FileMode;
