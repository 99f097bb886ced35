//! Consensus-facing core of a dual-ledger node.
//!
//! The library holds the decisions that the block-lifecycle callbacks of a
//! BFT consensus engine make: which ledger a raw transaction belongs to,
//! whether it is admitted to the mempool, how a delivered transaction is
//! routed (atomically across both ledgers for account conversions), which
//! fingerprints the replay history holds, and how the two ledger roots fold
//! into the commitment reported to consensus. The ledgers themselves are
//! collaborators: their results are handed to the library as plain values.

pub mod apphash;
pub mod catalog;
pub mod digest;
pub mod dispatcher;
pub mod history;
pub mod outcome;
pub mod status;
pub mod window;

pub use apphash::app_hash;
pub use catalog::{try_tx_catalog, TxCatalog, EVM_TX_TAG};
pub use dispatcher::{
    tx_fingerprint, BeginReply, BlockContext, CommitReply, Dispatcher, EndReply, InfoReply,
    PendingBlock, Stage,
};
pub use history::TxHistory;
pub use outcome::{Admission, NativeTxInfo, Reject, Step};
pub use status::CommitStatus;
pub use window::FeatureWindow;
