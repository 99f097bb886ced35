use vstd::prelude::*;
use crate::apphash::commitment_of;
use crate::window::FeatureWindow;

verus! {

/// What is persisted at every commit and read back on restart.
pub struct CommitStatus {
    pub height: i64,
    pub native_root: Vec<u8>,
    pub evm_root: Vec<u8>,
    pub window: FeatureWindow,
}

pub struct CommitStatusView {
    pub height: i64,
    pub native_root: Seq<u8>,
    pub evm_root: Seq<u8>,
    pub window: FeatureWindow,
}

impl View for CommitStatus {
    type V = CommitStatusView;

    open spec fn view(&self) -> CommitStatusView {
        CommitStatusView {
            height: self.height,
            native_root: self.native_root@,
            evm_root: self.evm_root@,
            window: self.window,
        }
    }
}

/// The commitment that a persisted status stands for.
pub open spec fn status_commitment(s: CommitStatusView) -> Seq<u8> {
    commitment_of(s.window, s.height as int, s.native_root, s.evm_root)
}

impl CommitStatus {
    pub fn copy(&self) -> (r: CommitStatus)
        ensures
            r@ == self@,
    {
        CommitStatus {
            height: self.height,
            native_root: self.native_root.clone(),
            evm_root: self.evm_root.clone(),
            window: self.window,
        }
    }
}

/// The height and commitment that `Info` reports for the last commit.
pub open spec fn info_of(last: Option<CommitStatusView>) -> (i64, Option<Seq<u8>>) {
    match last {
        None => (0, None),
        Some(s) => if s.height > 0 {
            (s.height, Some(status_commitment(s)))
        } else {
            (s.height, None)
        },
    }
}

/// After a restart from the status that `Commit` persisted, `Info` reports
/// that commit's height and, above height zero, the very commitment that
/// `Commit` returned.
pub proof fn lemma_info_after_restart(status: CommitStatusView)
    ensures
        info_of(Some(status)).0 == status.height,
        status.height > 0 ==> info_of(Some(status)).1 == Some(status_commitment(status)),
{
}

} // verus!
