use vstd::prelude::*;
use crate::digest::{sha256, sha256_of};
use crate::window::FeatureWindow;

verus! {

/// The commitment reported to consensus for a block at `height`.
///
/// While the EVM ledger is inert the native root is reported alone. Otherwise
/// a non-empty EVM root is appended to the native root and the concatenation
/// is hashed; an empty EVM root (no EVM state yet) leaves the native root alone.
pub open spec fn commitment_of(
    window: FeatureWindow,
    height: int,
    native_root: Seq<u8>,
    evm_root: Seq<u8>,
) -> Seq<u8> {
    if window.evm_disabled(height) || evm_root.len() == 0 {
        native_root
    } else {
        sha256_of(native_root + evm_root)
    }
}

/// Folds the native and the EVM root into one commitment.
///
/// `Info` and `Commit` both go through this function, so the two always agree.
pub fn app_hash(window: &FeatureWindow, height: i64, native_root: Vec<u8>, evm_root: Vec<u8>) -> (r:
    Vec<u8>)
    ensures
        r@ == commitment_of(*window, height as int, native_root@, evm_root@),
{
    if window.evm_disabled_at(height) || evm_root.len() == 0 {
        native_root
    } else {
        let mut joined = native_root;
        let mut tail = evm_root;
        joined.append(&mut tail);
        sha256(joined.as_slice())
    }
}

/// Inside the window the commitment is the native root, whatever the EVM
/// ledger holds.
pub proof fn lemma_disabled_window_ignores_evm(
    window: FeatureWindow,
    height: int,
    native_root: Seq<u8>,
    evm_root: Seq<u8>,
)
    requires
        window.evm_disabled(height),
    ensures
        commitment_of(window, height, native_root, evm_root) == native_root,
{
}

/// Outside the window the commitment is a function of the two roots: the same
/// roots give the same bytes on every recomputation.
pub proof fn lemma_commitment_stable(
    window: FeatureWindow,
    height: int,
    native_root: Seq<u8>,
    evm_root: Seq<u8>,
    native_again: Seq<u8>,
    evm_again: Seq<u8>,
)
    requires
        native_root == native_again,
        evm_root == evm_again,
    ensures
        commitment_of(window, height, native_root, evm_root) == commitment_of(
            window,
            height,
            native_again,
            evm_again,
        ),
{
}

/// Outside the window, with roots of one fixed length, a change of either root
/// changes what is committed to: the native root itself when the EVM root is
/// empty, and otherwise the bytes that are hashed. That a different preimage
/// gives a different digest is the collision resistance of SHA-256, which is
/// not proved here.
pub proof fn lemma_commitment_input_tracks_roots(
    window: FeatureWindow,
    height: int,
    n1: Seq<u8>,
    e1: Seq<u8>,
    n2: Seq<u8>,
    e2: Seq<u8>,
)
    requires
        !window.evm_disabled(height),
        n1.len() == n2.len(),
        n1 != n2 || e1 != e2,
    ensures
        e1.len() == 0 && e2.len() == 0 ==> commitment_of(window, height, n1, e1) != commitment_of(
            window,
            height,
            n2,
            e2,
        ),
        e1.len() > 0 && e2.len() > 0 ==> commitment_of(window, height, n1, e1) == sha256_of(n1 + e1)
            && commitment_of(window, height, n2, e2) == sha256_of(n2 + e2) && n1 + e1 != n2 + e2,
{
    if e1.len() == 0 && e2.len() == 0 {
        assert(e1 =~= e2);
    }
    if e1.len() > 0 && e2.len() > 0 && n1 + e1 == n2 + e2 {
        assert(n1 =~= (n1 + e1).subrange(0, n1.len() as int));
        assert(n2 =~= (n2 + e2).subrange(0, n2.len() as int));
        assert(e1 =~= (n1 + e1).subrange(n1.len() as int, (n1 + e1).len() as int));
        assert(e2 =~= (n2 + e2).subrange(n2.len() as int, (n2 + e2).len() as int));
    }
}

} // verus!
