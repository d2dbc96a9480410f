//! A single-pass ledger: replays a stream of client transactions
//! (deposits, withdrawals, disputes, resolves, chargebacks) against
//! per-client accounts and exports the final balances.

pub mod accounts;
pub mod arith;
pub mod csv_out;
pub mod laws;
pub mod render;
pub mod transaction;

pub use accounts::Account;
pub use accounts::Accounts;
pub use accounts::TransactionError;
pub use transaction::Amount;
pub use transaction::Transaction;
pub use transaction::TransactionKind;
