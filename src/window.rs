use vstd::prelude::*;

verus! {

/// The two heights that bound the interval in which the EVM ledger is inert.
///
/// Strictly between `disable_height` and `enable_height` the EVM ledger's
/// callbacks are skipped, its root is left out of the commitment and EVM
/// transactions are refused. Outside that interval both ledgers are active.
#[derive(Clone, Copy, Debug, PartialEq, Eq, Structural)]
pub struct FeatureWindow {
    pub disable_height: i64,
    pub enable_height: i64,
}

impl FeatureWindow {
    /// Whether the EVM ledger is inert at `height`.
    pub open spec fn evm_disabled(self, height: int) -> bool {
        self.disable_height < height && height < self.enable_height
    }

    pub fn new(disable_height: i64, enable_height: i64) -> (r: FeatureWindow)
        ensures
            r.disable_height == disable_height,
            r.enable_height == enable_height,
    {
        FeatureWindow { disable_height, enable_height }
    }

    /// The single predicate that every routing decision consults.
    pub fn evm_disabled_at(&self, height: i64) -> (r: bool)
        ensures
            r == self.evm_disabled(height as int),
    {
        self.disable_height < height && height < self.enable_height
    }
}

} // verus!
