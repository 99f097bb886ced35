use vstd::prelude::*;

verus! {

/// The prefix that marks a raw transaction as addressed to the EVM ledger.
pub const EVM_TX_TAG: [u8; 4] = [0x65, 0x76, 0x6d, 0x3a];

/// The ledger that a raw transaction is addressed to.
#[derive(Clone, Copy, Debug, PartialEq, Eq, Structural)]
pub enum TxCatalog {
    /// A transaction of the UTXO-style native ledger.
    FindoraTx,
    /// A transaction of the EVM account ledger.
    EvmTx,
    /// Neither: refused wherever it shows up.
    Unknown,
}

pub open spec fn evm_tag() -> Seq<u8> {
    seq![0x65u8, 0x76u8, 0x6du8, 0x3au8]
}

/// The catalog of a raw transaction, read from its bytes alone.
///
/// Anything no longer than the tag carries no payload and is unknown; a
/// longer string that starts with the tag is an EVM transaction; every other
/// longer string is offered to the native ledger, whose decoder has the last
/// word on its format.
pub open spec fn catalog_of(tx: Seq<u8>) -> TxCatalog {
    if tx.len() <= evm_tag().len() {
        TxCatalog::Unknown
    } else if tx.subrange(0, evm_tag().len() as int) == evm_tag() {
        TxCatalog::EvmTx
    } else {
        TxCatalog::FindoraTx
    }
}

/// Classifies a raw transaction by its bytes, without decoding it.
///
/// This never fails: what fits no ledger is `Unknown`.
pub fn try_tx_catalog(tx: &[u8]) -> (r: TxCatalog)
    ensures
        r == catalog_of(tx@),
{
    let n: usize = EVM_TX_TAG.len();
    assert(EVM_TX_TAG@ == evm_tag());
    if tx.len() <= n {
        return TxCatalog::Unknown;
    }
    let mut i: usize = 0;
    while i < n
        invariant
            n == 4,
            tx@.len() > n,
            EVM_TX_TAG@ == evm_tag(),
            0 <= i <= n,
            forall|j: int| 0 <= j < i ==> tx@[j] == evm_tag()[j],
        decreases n - i,
    {
        if tx[i] != EVM_TX_TAG[i] {
            assert(tx@.subrange(0, 4)[i as int] != evm_tag()[i as int]);
            return TxCatalog::FindoraTx;
        }
        i = i + 1;
    }
    assert(tx@.subrange(0, 4) =~= evm_tag());
    TxCatalog::EvmTx
}

/// Classification depends on the bytes alone: two calls on equal bytes give
/// the same catalog, and every byte string gets one of the three.
pub proof fn lemma_classify_deterministic(a: Seq<u8>, b: Seq<u8>)
    requires
        a == b,
    ensures
        catalog_of(a) == catalog_of(b),
        catalog_of(a) is FindoraTx || catalog_of(a) is EvmTx || catalog_of(a) is Unknown,
{
}

} // verus!
