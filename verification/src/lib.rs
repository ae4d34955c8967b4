//! Two kinds of persistent counter: one per caller and one shared by all.
//!
//! Every record lives at an address derived from fixed seeds and the
//! program's identity, so a record is found by deriving its address again,
//! and a caller reaches no personal counter but its own. Four instructions
//! exist: `initialize`, `initialize_global`, `increment` and `close`. Each
//! either takes effect as a whole or fails and changes nothing.
//!
//! - [`pubkey`]: keys and their comparison.
//! - [`address`]: the program's identity, the seeds and the derivation.
//! - [`state`]: the two records and their stored form.
//! - [`store`]: the account store, a map from address to stored bytes.
//! - [`instructions`]: the accounts of each instruction and its handler.
//! - [`program`]: instructions as values, histories, and the counters' readers.
//! - [`laws`]: what holds of the instructions, proved once and for all.

pub mod address;
pub mod error;
pub mod instructions;
pub mod laws;
pub mod program;
pub mod pubkey;
pub mod state;
pub mod store;

pub use error::CustomError;
pub use instructions::{
    close, increment, initialize, initialize_global, CloseAccount, Increment, Initialize,
    InitializeGlobal,
};
pub use pubkey::Pubkey;
pub use state::{GlobalAccount, UserAccount};
pub use store::AccountStore;
