//! Tenant-isolated, append-only audit ledger with hash-chained blocks,
//! together with the shared domain types of the surrounding platform:
//! typed identifiers, errors, tool and memory models, policy decisions,
//! and conversation-session bookkeeping.

pub mod block;
pub mod budget;
pub mod chain;
pub mod digest;
pub mod error;
pub mod evaluation;
pub mod history;
pub mod ids;
pub mod keys;
pub mod ledger;
pub mod manager;
pub mod memory;
pub mod payload;
pub mod rules;
pub mod storage;
pub mod summary;
pub mod tenant;
pub mod text;
pub mod tool;
pub mod verify;
