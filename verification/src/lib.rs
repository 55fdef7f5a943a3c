//! A verified ledger engine for a collateral-free lending protocol.
//!
//! The ledger keeps a registry of supported tokens with their interest
//! rates, a registry of liquidity pools and a registry of loans. It works
//! on plain values: whoever runs it hands it what the host knows about a
//! call ([`CallContext`]), keeps the ledger between calls
//! ([`LendingContract::parts`], [`LendingContract::from_parts`]) and
//! publishes the records it returns.
//!
//! - [`contract`] holds the engine, [`LendingContract`]. The effect of each
//!   operation is stated against [`model::LedgerModel`], the mathematical
//!   model of the ledger.
//! - [`laws`] proves what each operation does to the model, and
//!   [`history`] what holds after any sequence of operations.
//! - [`token`], [`pool`], [`loan`], [`events`], [`context`] and [`error`]
//!   hold the data; [`registry`] relates the registries, kept as vectors,
//!   to the maps of the model.

pub mod context;
pub mod contract;
pub mod error;
pub mod events;
pub mod history;
pub mod laws;
pub mod loan;
pub mod model;
pub mod pool;
pub mod registry;
pub mod token;

pub use context::{Address, CallContext};
pub use contract::LendingContract;
pub use error::LedgerError;
pub use events::{LoanCreatedEvent, LoanDisbursedEvent, LoanRepaidEvent};
pub use loan::{Loan, LoanStatus};
pub use pool::{LendingPool, PoolType};
pub use token::Token;
