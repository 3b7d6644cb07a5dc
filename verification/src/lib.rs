//! A local workbench for staging ledger transactions: named cells and keys
//! are assembled into transactions, which are kept under their content hash,
//! signed with the known keys and judged against a remote verdict.

pub mod assembly;
pub mod cell;
pub mod command;
pub mod decimal;
pub mod error;
pub mod hash;
pub mod hex;
pub mod key;
pub mod laws;
pub mod outpoint;
pub mod registry;
pub mod signing;
pub mod store;
pub mod table;
pub mod text;
pub mod transaction;
pub mod verdict;
pub mod workbench;
