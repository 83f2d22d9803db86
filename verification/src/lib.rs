//! Verified account state model for a workflow-template registry and a
//! delegated token supply ledger.
//!
//! The crate holds the record schemas, their capacity accounting and byte
//! layout, the deterministic address derivation, the authorization checks and
//! the state transitions of two components:
//!
//! - [`mcp`]: a registry of workflow templates and of the executions recorded
//!   against them;
//! - [`wale_token`]: the supply bookkeeping of the WALE token, whose actual
//!   unit creation and destruction is delegated to an external token ledger.
//!
//! Every operation is a synchronous, total function from the current record
//! state and the caller's verified identity to the next state, together with
//! the notification the host should publish and, for the token, the ledger
//! instruction the host must execute atomically with the state change. The
//! hosting runtime supplies the clock, performs the delegated ledger calls,
//! and discards the new state when a delegated call fails.

pub mod addressing;
pub mod encoding;
pub mod keys;
pub mod mcp;
pub mod wale_token;
