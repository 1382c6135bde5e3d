//! Escrow accounting for a marketplace of advertising space.
//!
//! Publishers register priced ad spots, advertisers register creatives, and an
//! agreement between the two holds the advertiser's deposit until the display
//! window has closed; a settlement then releases the deposit, less the
//! platform's fee, to the publisher, once.
//!
//! Every operation is a function of the ledger, of what the host says about
//! the call (`CallContext`) and of the arguments. What the host does with the
//! outcome, persisting records and moving funds, is left to the embedding:
//! the operations on single records take what the lookups found and return
//! what is to be stored and transferred.
//!
//! `model` holds the ledger as a mathematical value with the operations on
//! it, `history` sequences of calls, and `laws` what holds of them.

pub mod ad_spot;
pub mod context;
pub mod contract;
pub mod creative;
pub mod error;
pub mod history;
pub mod laws;
pub mod model;
pub mod presentation;
pub mod store;

pub use ad_spot::{AdSpot, ONE_NEAR};
pub use context::{AccountId, Balance, CallContext, Timestamp, MAX_NAME_LEN, NANOS_PER_SECOND};
pub use contract::MetaAdsContract;
pub use creative::Creative;
pub use error::{Claim, ContractError, InputFault, RecordKind};
pub use presentation::{Presentation, Transfer, FEE_DIVISOR};
pub use store::RecordStore;
