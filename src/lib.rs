//! State-and-rules core of a multi-token ledger: balances per token and account,
//! blanket operator approvals, token metadata, and the checks that guard every
//! change to them.

pub mod check;
pub mod codec;
pub mod contract;
pub mod dispatch;
pub mod laws;
pub mod model;
pub mod ops;
pub mod supply;
pub mod types;

pub use codec::{Event, Init, InitOk, Input, Query, State};
pub use contract::{Contract, MockConfig, TokenMetadata};
pub use dispatch::init;
pub use model::Step;
pub use types::{AccountId, Balance, Error, TokenId, Zero};
