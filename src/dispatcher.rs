use vstd::prelude::*;
use crate::apphash::app_hash;
use crate::status::{info_of, status_commitment, CommitStatus, CommitStatusView};
use crate::catalog::{catalog_of, try_tx_catalog, TxCatalog};
use crate::digest::{sha256, sha256_of};
use crate::history::TxHistory;
use crate::outcome::{Admission, NativeTxInfo, Reject, Step};
use crate::window::FeatureWindow;

verus! {

/// The fingerprint of a raw transaction: the SHA-256 digest of its bytes.
pub fn tx_fingerprint(tx: &[u8]) -> (r: Vec<u8>)
    ensures
        r@ == sha256_of(tx@),
        r@.len() == 32,
{
    sha256(tx)
}

/// The most recent `BeginBlock` request, kept for `EndBlock`.
pub struct BlockContext<C> {
    pub height: i64,
    pub request: C,
}

/// The native transactions cached since the block was opened, by fingerprint.
pub struct PendingBlock {
    pub txns: Vec<Vec<u8>>,
}

/// Where a delivery stands between the steps that the ledgers carry out.
#[derive(Clone, Copy, Debug, PartialEq, Eq, Structural)]
pub enum Stage {
    Idle,
    /// Waiting for the EVM side of an account conversion.
    AwaitEvm,
    /// Waiting for the native ledger to cache the transaction.
    AwaitNative { conversion: bool },
}

/// The reply to `Info`.
pub struct InfoReply {
    pub last_block_height: i64,
    pub last_block_app_hash: Option<Vec<u8>>,
    /// Whether a new block was opened in the native ledger.
    pub opened_block: bool,
}

impl PendingBlock {
    pub open spec fn fingerprints(&self) -> Seq<Seq<u8>> {
        self.txns@.map_values(|v: Vec<u8>| v@)
    }
}

/// The stage that a delivery step leaves the dispatcher in.
pub open spec fn stage_after(step: Step) -> Stage {
    match step {
        Step::ApplyEvm => Stage::AwaitEvm,
        Step::ApplyNative => Stage::AwaitNative { conversion: false },
        _ => Stage::Idle,
    }
}

/// The step after the EVM side of an account conversion reported `result`.
pub open spec fn evm_step(result: Result<(), String>) -> Step {
    match result {
        Ok(()) => Step::ApplyNative,
        Err(e) => Step::DiscardSessions(Reject::Conversion(e)),
    }
}

/// The step after the native ledger reported `result` on caching the
/// transaction; `conversion` tells whether an EVM side is waiting on it.
pub open spec fn native_step(conversion: bool, result: Result<(), String>) -> Step {
    match result {
        Ok(()) => if conversion {
            Step::CommitSessions
        } else {
            Step::Applied
        },
        Err(e) => if conversion {
            Step::DiscardSessions(Reject::Ledger(e))
        } else {
            Step::Rejected(Reject::Ledger(e))
        },
    }
}

/// How an account conversion ends, given what each ledger reported: the EVM
/// side is applied first, the native side only after it succeeded.
pub open spec fn conversion_outcome(evm: Result<(), String>, native: Result<(), String>) -> Step {
    match evm_step(evm) {
        Step::ApplyNative => native_step(true, native),
        other => other,
    }
}

/// An account conversion is reflected in both ledgers or in neither: its EVM
/// sessions are committed exactly when both sides succeeded, and discarded
/// otherwise, in particular when the EVM side succeeded and the native
/// ledger refused the transaction.
pub proof fn lemma_conversion_atomic(evm: Result<(), String>, native: Result<(), String>)
    ensures
        (conversion_outcome(evm, native) is CommitSessions) <==> (evm is Ok && native is Ok),
        !(evm is Ok && native is Ok) ==> (conversion_outcome(evm, native) is DiscardSessions),
{
}

/// The reply to `BeginBlock`.
#[derive(Clone, Copy, Debug, PartialEq, Eq, Structural)]
pub struct BeginReply {
    /// Open a new block in the native ledger; otherwise advance its staking simulation.
    pub opened_block: bool,
    /// Run the EVM ledger's `BeginBlock`.
    pub run_evm: bool,
}

/// The reply to `EndBlock`.
#[derive(Clone, Copy, Debug, PartialEq, Eq, Structural)]
pub struct EndReply {
    /// Finalize the native ledger's open block.
    pub finished_block: bool,
    /// Run the EVM ledger's `EndBlock`.
    pub run_evm: bool,
}

/// The reply to `Commit`.
pub struct CommitReply {
    pub app_hash: Vec<u8>,
    /// What is to be persisted; a failure to persist it must halt the node.
    pub status: CommitStatus,
}

/// The decisions of the block-lifecycle callbacks, with the state they share.
///
/// `C` is the `BeginBlock` request that `EndBlock` hands on to the staking
/// collaborator; the dispatcher only keeps it.
pub struct Dispatcher<C> {
    pub window: FeatureWindow,
    /// The height of the block being processed.
    pub height: i64,
    pub context: Option<BlockContext<C>>,
    /// The native ledger's open block, if one is open.
    pub block: Option<PendingBlock>,
    pub history: TxHistory,
    pub stage: Stage,
    /// The fingerprint of the transaction being delivered, while not `Idle`.
    pub in_flight: Vec<u8>,
    pub last_commit: Option<CommitStatus>,
}

impl<C> Dispatcher<C> {
    pub open spec fn wf(&self) -> bool {
        &&& self.context matches Some(c) ==> c.height == self.height
        &&& self.stage != Stage::Idle ==> self.block is Some
    }

    pub open spec fn last_view(&self) -> Option<CommitStatusView> {
        match self.last_commit {
            None => None,
            Some(s) => Some(s@),
        }
    }

    /// The mempool's verdict on `tx` in this state.
    pub open spec fn admission_of(&self, tx: Seq<u8>, decoded: Option<NativeTxInfo>) -> Admission {
        match catalog_of(tx) {
            TxCatalog::Unknown => Admission::Reject(Reject::UnknownTx),
            TxCatalog::EvmTx => if self.window.evm_disabled(self.height as int) {
                Admission::Reject(Reject::EvmDisabled)
            } else {
                Admission::DelegateEvm
            },
            TxCatalog::FindoraTx => match decoded {
                None => Admission::Reject(Reject::InvalidFormat),
                Some(info) => if !info.valid_in_abci {
                    Admission::Reject(Reject::NotInAbci)
                } else if self.history.entries().contains(sha256_of(tx)) {
                    Admission::Reject(Reject::Historical)
                } else {
                    Admission::Accept
                },
            },
        }
    }

    /// The step that delivering `tx` takes first in this state.
    pub open spec fn delivery_of(&self, tx: Seq<u8>, decoded: Option<NativeTxInfo>) -> Step {
        match catalog_of(tx) {
            TxCatalog::Unknown => Step::Rejected(Reject::UnknownTx),
            TxCatalog::EvmTx => if self.window.evm_disabled(self.height as int) {
                Step::Rejected(Reject::EvmDisabled)
            } else {
                Step::DelegateEvm
            },
            TxCatalog::FindoraTx => match decoded {
                None => Step::Rejected(Reject::InvalidFormat),
                Some(info) => if !info.valid_in_abci {
                    Step::Rejected(Reject::NotInAbci)
                } else if self.history.entries().contains(sha256_of(tx)) {
                    Step::Rejected(Reject::Historical)
                } else if self.block is None {
                    Step::Rejected(Reject::NoOpenBlock)
                } else if info.is_convert_account && self.window.evm_disabled(self.height as int) {
                    Step::Rejected(Reject::EvmDisabled)
                } else if info.is_convert_account {
                    Step::ApplyEvm
                } else {
                    Step::ApplyNative
                },
            },
        }
    }

    /// A dispatcher at height zero with nothing committed and no block open.
    pub fn new(window: FeatureWindow) -> (r: Dispatcher<C>)
        ensures
            r.wf(),
            r.window == window,
            r.height == 0,
            r.context is None,
            r.block is None,
            r.history.entries() == Set::<Seq<u8>>::empty(),
            r.history.pending() == Seq::<Seq<u8>>::empty(),
            r.stage == Stage::Idle,
            r.last_commit is None,
    {
        Dispatcher {
            window,
            height: 0,
            context: None,
            block: None,
            history: TxHistory::new(),
            stage: Stage::Idle,
            in_flight: Vec::new(),
            last_commit: None,
        }
    }

    /// A dispatcher restored after a restart from the last persisted status
    /// and the persisted replay history.
    pub fn from_status(status: CommitStatus, history: TxHistory) -> (r: Dispatcher<C>)
        ensures
            r.wf(),
            r.window == status.window,
            r.height == status.height,
            r.context is None,
            r.block is None,
            r.history == history,
            r.stage == Stage::Idle,
            r.last_view() == Some(status@),
    {
        Dispatcher {
            window: status.window,
            height: status.height,
            context: None,
            block: None,
            history,
            stage: Stage::Idle,
            in_flight: Vec::new(),
            last_commit: Some(status),
        }
    }

    /// Handles `Info`: reports the last committed height and, above height
    /// zero, its commitment, computed as `Commit` computed it. Opens a block
    /// in the native ledger unless one is open already.
    pub fn info(&mut self) -> (r: InfoReply)
        requires
            old(self).wf(),
            old(self).stage == Stage::Idle,
        ensures
            final(self).wf(),
            r.last_block_height == info_of(old(self).last_view()).0,
            r.last_block_app_hash is None <==> info_of(old(self).last_view()).1 is None,
            r.last_block_app_hash matches Some(h) ==> Some(h@) == info_of(old(self).last_view()).1,
            final(self).height == r.last_block_height,
            final(self).context is None,
            r.opened_block == old(self).block is None,
            r.opened_block ==> (final(self).block matches Some(b) && b.txns@.len() == 0),
            !r.opened_block ==> final(self).block == old(self).block,
            final(self).window == old(self).window,
            final(self).history == old(self).history,
            final(self).stage == old(self).stage,
            final(self).last_commit == old(self).last_commit,
    {
        let (height, app_hash_opt) = match &self.last_commit {
            None => (0i64, None),
            Some(s) => {
                if s.height > 0 {
                    let h = app_hash(&s.window, s.height, s.native_root.clone(), s.evm_root.clone());
                    (s.height, Some(h))
                } else {
                    (s.height, None)
                }
            },
        };
        self.height = height;
        self.context = None;
        let opened = self.block.is_none();
        if opened {
            self.block = Some(PendingBlock { txns: Vec::new() });
        }
        InfoReply { last_block_height: height, last_block_app_hash: app_hash_opt, opened_block: opened }
    }

    /// The mempool's admission gate. It reads the state and changes nothing.
    pub fn check_tx(&self, tx: &[u8], decoded: Option<NativeTxInfo>) -> (r: Admission)
        ensures
            r == self.admission_of(tx@, decoded),
    {
        match try_tx_catalog(tx) {
            TxCatalog::Unknown => Admission::Reject(Reject::UnknownTx),
            TxCatalog::EvmTx => {
                if self.window.evm_disabled_at(self.height) {
                    Admission::Reject(Reject::EvmDisabled)
                } else {
                    Admission::DelegateEvm
                }
            },
            TxCatalog::FindoraTx => match decoded {
                None => Admission::Reject(Reject::InvalidFormat),
                Some(info) => {
                    if !info.valid_in_abci {
                        Admission::Reject(Reject::NotInAbci)
                    } else if self.history.contains_key(tx_fingerprint(tx).as_slice()) {
                        Admission::Reject(Reject::Historical)
                    } else {
                        Admission::Accept
                    }
                },
            },
        }
    }

    /// Handles `DeliverTx`: routes `tx` by its catalog. `decoded` is what the
    /// native ledger's decoder made of it (`None` if it could not decode it).
    ///
    /// A decoded native transaction has its fingerprint queued for the
    /// replay history whatever comes next; the write lands later, when the
    /// queue is drained, so this call never waits on it. A fingerprint that
    /// has landed is refused; before it lands, the native ledger's own check
    /// of spent inputs is what refuses a replay.
    pub fn deliver_tx(&mut self, tx: &[u8], decoded: Option<NativeTxInfo>) -> (r: Step)
        requires
            old(self).wf(),
            old(self).stage == Stage::Idle,
        ensures
            final(self).wf(),
            r == old(self).delivery_of(tx@, decoded),
            final(self).stage == stage_after(r),
            final(self).stage != Stage::Idle ==> final(self).in_flight@ == sha256_of(tx@),
            final(self).history.entries() == old(self).history.entries(),
            (catalog_of(tx@) is FindoraTx && decoded is Some) ==> final(self).history.pending()
                == old(self).history.pending().push(sha256_of(tx@)) && final(self).history.drained()
                == old(self).history.drained().insert(sha256_of(tx@)),
            !(catalog_of(tx@) is FindoraTx && decoded is Some) ==> final(self).history
                == old(self).history,
            final(self).window == old(self).window,
            final(self).height == old(self).height,
            final(self).context == old(self).context,
            final(self).block == old(self).block,
            final(self).last_commit == old(self).last_commit,
    {
        let info = match try_tx_catalog(tx) {
            TxCatalog::Unknown => {
                return Step::Rejected(Reject::UnknownTx);
            },
            TxCatalog::EvmTx => {
                if self.window.evm_disabled_at(self.height) {
                    return Step::Rejected(Reject::EvmDisabled);
                }
                return Step::DelegateEvm;
            },
            TxCatalog::FindoraTx => match decoded {
                None => {
                    return Step::Rejected(Reject::InvalidFormat);
                },
                Some(info) => info,
            },
        };
        let fingerprint = tx_fingerprint(tx);
        let seen = self.history.contains_key(fingerprint.as_slice());
        self.history.schedule(fingerprint.clone());
        if !info.valid_in_abci {
            return Step::Rejected(Reject::NotInAbci);
        }
        if seen {
            return Step::Rejected(Reject::Historical);
        }
        if self.block.is_none() {
            return Step::Rejected(Reject::NoOpenBlock);
        }
        if info.is_convert_account {
            if self.window.evm_disabled_at(self.height) {
                return Step::Rejected(Reject::EvmDisabled);
            }
            self.in_flight = fingerprint;
            self.stage = Stage::AwaitEvm;
            Step::ApplyEvm
        } else {
            self.in_flight = fingerprint;
            self.stage = Stage::AwaitNative { conversion: false };
            Step::ApplyNative
        }
    }

    /// Takes the result of the EVM side of an account conversion. On success
    /// the native side follows; on failure the sessions are discarded and the
    /// transaction is refused.
    pub fn evm_side_done(&mut self, result: Result<(), String>) -> (r: Step)
        requires
            old(self).wf(),
            old(self).stage == Stage::AwaitEvm,
        ensures
            final(self).wf(),
            r == evm_step(result),
            result is Ok ==> final(self).stage == (Stage::AwaitNative { conversion: true }),
            result is Err ==> final(self).stage == Stage::Idle,
            final(self).in_flight == old(self).in_flight,
            final(self).history == old(self).history,
            final(self).window == old(self).window,
            final(self).height == old(self).height,
            final(self).context == old(self).context,
            final(self).block == old(self).block,
            final(self).last_commit == old(self).last_commit,
    {
        match result {
            Ok(()) => {
                self.stage = Stage::AwaitNative { conversion: true };
                Step::ApplyNative
            },
            Err(e) => {
                self.stage = Stage::Idle;
                Step::DiscardSessions(Reject::Conversion(e))
            },
        }
    }

    /// Takes the native ledger's result of caching the transaction in its
    /// open block, and ends the delivery.
    pub fn native_side_done(&mut self, result: Result<(), String>) -> (r: Step)
        requires
            old(self).wf(),
            (old(self).stage is AwaitNative),
        ensures
            final(self).wf(),
            r == native_step(old(self).stage->conversion, result),
            final(self).stage == Stage::Idle,
            result is Ok ==> (final(self).block matches Some(b) && old(self).block matches Some(
                ob,
            ) && b.fingerprints() == ob.fingerprints().push(old(self).in_flight@) && b.txns@.len()
                == ob.txns@.len() + 1),
            result is Err ==> final(self).block == old(self).block,
            final(self).history == old(self).history,
            final(self).window == old(self).window,
            final(self).height == old(self).height,
            final(self).context == old(self).context,
            final(self).last_commit == old(self).last_commit,
    {
        let conversion = match self.stage {
            Stage::AwaitNative { conversion } => conversion,
            _ => false,
        };
        self.stage = Stage::Idle;
        match result {
            Ok(()) => {
                let fingerprint = self.in_flight.clone();
                match &mut self.block {
                    Some(b) => {
                        let ghost before = b.fingerprints();
                        b.txns.push(fingerprint);
                        assert(b.fingerprints() =~= before.push(old(self).in_flight@));
                    },
                    None => {},
                }
                if conversion {
                    Step::CommitSessions
                } else {
                    Step::Applied
                }
            },
            Err(e) => {
                if conversion {
                    Step::DiscardSessions(Reject::Ledger(e))
                } else {
                    Step::Rejected(Reject::Ledger(e))
                }
            },
        }
    }

    /// Handles `BeginBlock` at `height`: keeps the request for `EndBlock`,
    /// moves the chain height, and opens a block in the native ledger if it
    /// is fully committed (else its staking simulation advances).
    pub fn begin_block(&mut self, height: i64, request: C) -> (r: BeginReply)
        requires
            old(self).wf(),
            old(self).stage == Stage::Idle,
        ensures
            final(self).wf(),
            final(self).height == height,
            final(self).context == Some(BlockContext { height, request }),
            r.opened_block == old(self).block is None,
            r.opened_block ==> (final(self).block matches Some(b) && b.txns@.len() == 0),
            !r.opened_block ==> final(self).block == old(self).block,
            r.run_evm == !old(self).window.evm_disabled(height as int),
            final(self).stage == Stage::Idle,
            final(self).window == old(self).window,
            final(self).history == old(self).history,
            final(self).last_commit == old(self).last_commit,
    {
        self.height = height;
        self.context = Some(BlockContext { height, request });
        let opened = self.block.is_none();
        if opened {
            self.block = Some(PendingBlock { txns: Vec::new() });
        }
        BeginReply { opened_block: opened, run_evm: !self.window.evm_disabled_at(height) }
    }

    /// Handles `EndBlock`. `minted` tells whether the staking collaborator
    /// cached a system transaction in the open block. A block that holds any
    /// transaction is finalized; an empty one stays open into the next height.
    pub fn end_block(&mut self, minted: bool) -> (r: EndReply)
        requires
            old(self).wf(),
            old(self).stage == Stage::Idle,
            (old(self).context is Some),
        ensures
            final(self).wf(),
            r.finished_block == (old(self).block matches Some(b) && (b.txns@.len() > 0 || minted)),
            r.finished_block ==> final(self).block is None,
            !r.finished_block ==> final(self).block == old(self).block,
            r.run_evm == !old(self).window.evm_disabled(old(self).height as int),
            final(self).stage == Stage::Idle,
            final(self).height == old(self).height,
            final(self).context == old(self).context,
            final(self).window == old(self).window,
            final(self).history == old(self).history,
            final(self).last_commit == old(self).last_commit,
    {
        let finished = match &self.block {
            Some(b) => b.txns.len() > 0 || minted,
            None => false,
        };
        if finished {
            self.block = None;
        }
        EndReply { finished_block: finished, run_evm: !self.window.evm_disabled_at(self.height) }
    }

    /// Handles `Commit`: takes the two ledgers' roots, returns the commitment
    /// for the current height and the status to persist, and keeps that
    /// status for a later `Info`.
    pub fn commit(&mut self, native_root: Vec<u8>, evm_root: Vec<u8>) -> (r: CommitReply)
        requires
            old(self).wf(),
            old(self).stage == Stage::Idle,
        ensures
            final(self).wf(),
            r.status@ == (CommitStatusView {
                height: old(self).height,
                native_root: native_root@,
                evm_root: evm_root@,
                window: old(self).window,
            }),
            r.app_hash@ == status_commitment(r.status@),
            final(self).last_view() == Some(r.status@),
            final(self).stage == Stage::Idle,
            final(self).height == old(self).height,
            final(self).context == old(self).context,
            final(self).block == old(self).block,
            final(self).window == old(self).window,
            final(self).history == old(self).history,
    {
        let hash = app_hash(&self.window, self.height, native_root.clone(), evm_root.clone());
        let status = CommitStatus { height: self.height, native_root, evm_root, window: self.window };
        self.last_commit = Some(status.copy());
        CommitReply { app_hash: hash, status }
    }
}

/// A transaction whose fingerprint is queued or has landed is refused, at
/// admission and at delivery, by every state whose history holds what this
/// one holds once its queue has drained, whatever else that state holds.
pub proof fn lemma_landed_replay_refused<C>(d: Dispatcher<C>, tx: Seq<u8>, decoded: Option<NativeTxInfo>)
    requires
        catalog_of(tx) is FindoraTx,
        d.history.drained().contains(sha256_of(tx)),
    ensures
        forall|later: Dispatcher<C>|
            later.history.entries() == d.history.drained() ==> ((
            #[trigger] later.admission_of(tx, decoded)) is Reject && (later.delivery_of(tx, decoded) is Rejected)),
{
}

} // verus!
