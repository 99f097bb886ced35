use vstd::prelude::*;

verus! {

/// What the native ledger's decoder reports of a transaction it could read.
#[derive(Clone, Copy, Debug, PartialEq, Eq, Structural)]
pub struct NativeTxInfo {
    /// False for transactions that carry parts only valid at final commit.
    pub valid_in_abci: bool,
    /// True for a transfer between a native account and an EVM account.
    pub is_convert_account: bool,
}

/// Why a transaction is refused.
#[derive(Clone, Debug, PartialEq, Eq)]
pub enum Reject {
    /// The bytes fit neither ledger.
    UnknownTx,
    /// The native ledger could not decode the bytes.
    InvalidFormat,
    /// The fingerprint is already in the replay history.
    Historical,
    /// The transaction carries parts that are only valid at final commit.
    NotInAbci,
    /// The EVM ledger is inert at the current height.
    EvmDisabled,
    /// No block is open to take the transaction.
    NoOpenBlock,
    /// The native ledger refused to apply the transaction.
    Ledger(String),
    /// The EVM side of an account conversion failed.
    Conversion(String),
}

impl Reject {
    pub open spec fn code_of(&self) -> u32 {
        match self {
            Reject::EvmDisabled => 2,
            _ => 1,
        }
    }

    /// The status code reported to consensus; never zero.
    pub fn code(&self) -> (r: u32)
        ensures
            r == self.code_of(),
            r != 0,
    {
        match self {
            Reject::EvmDisabled => 2,
            _ => 1,
        }
    }

    /// The human-readable log line reported to consensus.
    pub fn log(&self) -> (r: String)
        ensures
            self matches Reject::UnknownTx ==> r@ == "Unknown transaction"@,
            self matches Reject::InvalidFormat ==> r@ == "Invalid data format"@,
            self matches Reject::Historical ==> r@ == "Historical transaction"@,
            self matches Reject::NotInAbci ==> r@ == "Should not appear in ABCI"@,
            self matches Reject::EvmDisabled ==> r@ == "EVM is disabled"@,
            self matches Reject::NoOpenBlock ==> r@ == "No open block"@,
            self matches Reject::Ledger(e) ==> r@ == e@,
            self matches Reject::Conversion(e) ==> r@ == e@,
    {
        match self {
            Reject::UnknownTx => "Unknown transaction".to_owned(),
            Reject::InvalidFormat => "Invalid data format".to_owned(),
            Reject::Historical => "Historical transaction".to_owned(),
            Reject::NotInAbci => "Should not appear in ABCI".to_owned(),
            Reject::EvmDisabled => "EVM is disabled".to_owned(),
            Reject::NoOpenBlock => "No open block".to_owned(),
            Reject::Ledger(e) => e.clone(),
            Reject::Conversion(e) => e.clone(),
        }
    }
}

/// The mempool's verdict on a transaction.
#[derive(Clone, Debug, PartialEq, Eq)]
pub enum Admission {
    Accept,
    Reject(Reject),
    /// Outside the inert window: the EVM ledger's own check decides.
    DelegateEvm,
}

/// What the node does next while delivering a transaction.
///
/// `Applied`, `Rejected`, `DelegateEvm`, `CommitSessions` and
/// `DiscardSessions` end the delivery; after `ApplyEvm` and `ApplyNative` the
/// outcome of that work is reported back before anything else happens.
#[derive(Clone, Debug, PartialEq, Eq)]
pub enum Step {
    /// The transaction took effect.
    Applied,
    /// The transaction was refused and no ledger was touched.
    Rejected(Reject),
    /// The EVM ledger's own delivery handles the transaction; its response is final.
    DelegateEvm,
    /// Apply the EVM side of an account conversion in a revertible session.
    ApplyEvm,
    /// Cache the transaction in the native ledger's open block.
    ApplyNative,
    /// Both sides of a conversion took effect: commit the EVM sessions.
    CommitSessions,
    /// A side of a conversion failed: discard the EVM sessions; the transaction is refused.
    DiscardSessions(Reject),
}

} // verus!
