use abciapp::{
    tx_fingerprint, Admission, CommitStatus, Dispatcher, FeatureWindow, NativeTxInfo, Reject,
    Stage, Step, TxHistory,
};

const DISABLE: i64 = 100;
const ENABLE: i64 = 200;

const PLAIN: NativeTxInfo = NativeTxInfo { valid_in_abci: true, is_convert_account: false };
const CONVERT: NativeTxInfo = NativeTxInfo { valid_in_abci: true, is_convert_account: true };

fn node() -> Dispatcher<u64> {
    Dispatcher::new(FeatureWindow::new(DISABLE, ENABLE))
}

fn node_in_block(height: i64) -> Dispatcher<u64> {
    let mut d = node();
    let r = d.begin_block(height, height as u64);
    assert!(r.opened_block);
    d
}

fn deliver_native(d: &mut Dispatcher<u64>, tx: &[u8], ledger: Result<(), String>) -> Step {
    match d.deliver_tx(tx, Some(PLAIN)) {
        Step::ApplyNative => d.native_side_done(ledger),
        other => other,
    }
}

#[test]
fn evm_tx_refused_inside_window() {
    let mut d = node();
    d.begin_block(DISABLE + 1, 0);
    let verdict = d.check_tx(b"evm:payload", None);
    assert_eq!(verdict, Admission::Reject(Reject::EvmDisabled));
    if let Admission::Reject(reason) = verdict {
        assert_eq!(reason.code(), 2);
        assert_eq!(reason.log(), "EVM is disabled");
    }
    assert_eq!(d.deliver_tx(b"evm:payload", None), Step::Rejected(Reject::EvmDisabled));
}

#[test]
fn evm_tx_delegated_outside_window() {
    let mut d = node();
    d.begin_block(DISABLE, 0);
    assert_eq!(d.check_tx(b"evm:payload", None), Admission::DelegateEvm);
    assert_eq!(d.deliver_tx(b"evm:payload", None), Step::DelegateEvm);
    d.begin_block(ENABLE, 0);
    assert_eq!(d.check_tx(b"evm:payload", None), Admission::DelegateEvm);
}

#[test]
fn unknown_tx_refused_everywhere() {
    let mut d = node_in_block(5);
    assert_eq!(d.check_tx(b"ab", None), Admission::Reject(Reject::UnknownTx));
    assert_eq!(d.deliver_tx(b"ab", Some(PLAIN)), Step::Rejected(Reject::UnknownTx));
    assert_eq!(Reject::UnknownTx.code(), 1);
    assert_eq!(Reject::UnknownTx.log(), "Unknown transaction");
    assert_eq!(d.history.queued.len(), 0);
}

#[test]
fn undecodable_native_tx_refused() {
    let mut d = node_in_block(5);
    assert_eq!(d.check_tx(b"garbage", None), Admission::Reject(Reject::InvalidFormat));
    assert_eq!(d.deliver_tx(b"garbage", None), Step::Rejected(Reject::InvalidFormat));
    assert_eq!(Reject::InvalidFormat.code(), 1);
    assert_eq!(d.history.queued.len(), 0);
}

#[test]
fn commit_only_tx_refused() {
    let mut d = node_in_block(5);
    let info = NativeTxInfo { valid_in_abci: false, is_convert_account: false };
    assert_eq!(d.check_tx(b"{commit-only}", Some(info)), Admission::Reject(Reject::NotInAbci));
    assert_eq!(d.deliver_tx(b"{commit-only}", Some(info)), Step::Rejected(Reject::NotInAbci));
    assert_eq!(Reject::NotInAbci.log(), "Should not appear in ABCI");
    // the write is queued whatever the outcome
    assert_eq!(d.history.queued.len(), 1);
}

#[test]
fn native_tx_without_open_block_refused() {
    let mut d = node();
    assert_eq!(d.deliver_tx(b"{tx-0}", Some(PLAIN)), Step::Rejected(Reject::NoOpenBlock));
    assert_eq!(d.stage, Stage::Idle);
}

#[test]
fn native_tx_applied_and_cached() {
    let mut d = node_in_block(5);
    assert_eq!(d.check_tx(b"{tx-a}", Some(PLAIN)), Admission::Accept);
    assert_eq!(d.deliver_tx(b"{tx-a}", Some(PLAIN)), Step::ApplyNative);
    assert_eq!(d.stage, Stage::AwaitNative { conversion: false });
    assert_eq!(d.native_side_done(Ok(())), Step::Applied);
    assert_eq!(d.stage, Stage::Idle);
    let block = d.block.as_ref().unwrap();
    assert_eq!(block.txns, vec![tx_fingerprint(b"{tx-a}")]);
}

#[test]
fn native_ledger_error_refuses_tx() {
    let mut d = node_in_block(5);
    let step = deliver_native(&mut d, b"{tx-a}", Err("input already spent".to_string()));
    let reason = Reject::Ledger("input already spent".to_string());
    assert_eq!(step, Step::Rejected(reason.clone()));
    assert_eq!(reason.code(), 1);
    assert_eq!(reason.log(), "input already spent");
    assert!(d.block.as_ref().unwrap().txns.is_empty());
}

#[test]
fn history_write_lands_only_when_drained() {
    let mut d = node_in_block(5);
    assert_eq!(deliver_native(&mut d, b"{tx-a}", Ok(())), Step::Applied);
    let fp = tx_fingerprint(b"{tx-a}");
    assert!(!d.history.contains_key(&fp));
    assert_eq!(d.check_tx(b"{tx-a}", Some(PLAIN)), Admission::Accept);
    d.history.drain();
    assert!(d.history.contains_key(&fp));
    assert!(d.history.queued.is_empty());
    assert_eq!(d.check_tx(b"{tx-a}", Some(PLAIN)), Admission::Reject(Reject::Historical));
    assert_eq!(d.deliver_tx(b"{tx-a}", Some(PLAIN)), Step::Rejected(Reject::Historical));
    assert_eq!(Reject::Historical.log(), "Historical transaction");
}

#[test]
fn same_tx_twice_in_one_block() {
    let mut d = node_in_block(7);
    assert_eq!(deliver_native(&mut d, b"{tx-a}", Ok(())), Step::Applied);
    // before the write lands, the native ledger's own check refuses the replay
    assert_eq!(d.deliver_tx(b"{tx-a}", Some(PLAIN)), Step::ApplyNative);
    let step = d.native_side_done(Err("input already spent".to_string()));
    assert_eq!(step, Step::Rejected(Reject::Ledger("input already spent".to_string())));
    // once it has landed, the history refuses it outright
    d.history.drain();
    assert_eq!(d.deliver_tx(b"{tx-a}", Some(PLAIN)), Step::Rejected(Reject::Historical));
    assert_eq!(d.block.as_ref().unwrap().txns.len(), 1);
}

#[test]
fn history_drain_keeps_entries_unique() {
    let mut h = TxHistory::new();
    h.schedule(vec![1, 2]);
    h.schedule(vec![3]);
    h.schedule(vec![1, 2]);
    assert!(!h.contains_key(&[1, 2]));
    h.drain();
    assert!(h.contains_key(&[1, 2]));
    assert!(h.contains_key(&[3]));
    assert!(!h.contains_key(&[1]));
    assert_eq!(h.landed.len(), 2);
    let restored = TxHistory::from_entries(h.landed.clone());
    assert!(restored.contains_key(&[3]));
}

#[test]
fn conversion_commits_when_both_sides_succeed() {
    let mut d = node_in_block(ENABLE + 1);
    assert_eq!(d.deliver_tx(b"{convert}", Some(CONVERT)), Step::ApplyEvm);
    assert_eq!(d.stage, Stage::AwaitEvm);
    assert_eq!(d.evm_side_done(Ok(())), Step::ApplyNative);
    assert_eq!(d.stage, Stage::AwaitNative { conversion: true });
    assert_eq!(d.native_side_done(Ok(())), Step::CommitSessions);
    assert_eq!(d.block.as_ref().unwrap().txns.len(), 1);
}

#[test]
fn conversion_discarded_when_native_side_fails() {
    let mut d = node_in_block(ENABLE + 1);
    assert_eq!(d.deliver_tx(b"{convert}", Some(CONVERT)), Step::ApplyEvm);
    assert_eq!(d.evm_side_done(Ok(())), Step::ApplyNative);
    let step = d.native_side_done(Err("insufficient balance".to_string()));
    assert_eq!(step, Step::DiscardSessions(Reject::Ledger("insufficient balance".to_string())));
    assert_eq!(d.stage, Stage::Idle);
    assert!(d.block.as_ref().unwrap().txns.is_empty());
}

#[test]
fn conversion_discarded_when_evm_side_fails() {
    let mut d = node_in_block(ENABLE + 1);
    assert_eq!(d.deliver_tx(b"{convert}", Some(CONVERT)), Step::ApplyEvm);
    let step = d.evm_side_done(Err("deliver convert account tx failed: nonce".to_string()));
    let reason = Reject::Conversion("deliver convert account tx failed: nonce".to_string());
    assert_eq!(step, Step::DiscardSessions(reason.clone()));
    assert_eq!(reason.code(), 1);
    assert_eq!(d.stage, Stage::Idle);
    assert!(d.block.as_ref().unwrap().txns.is_empty());
}

#[test]
fn conversion_refused_inside_window() {
    let mut d = node_in_block(DISABLE + 1);
    assert_eq!(d.deliver_tx(b"{convert}", Some(CONVERT)), Step::Rejected(Reject::EvmDisabled));
    assert_eq!(deliver_native(&mut d, b"{plain}", Ok(())), Step::Applied);
}

#[test]
fn begin_block_sets_height_and_evm_flag() {
    let mut d = node();
    let r = d.begin_block(DISABLE + 1, 42);
    assert!(r.opened_block);
    assert!(!r.run_evm);
    assert_eq!(d.height, DISABLE + 1);
    let ctx = d.context.as_ref().unwrap();
    assert_eq!((ctx.height, ctx.request), (DISABLE + 1, 42));
    let again = d.begin_block(ENABLE, 43);
    assert!(!again.opened_block);
    assert!(again.run_evm);
}

#[test]
fn empty_block_stays_open() {
    let mut d = node_in_block(3);
    let r = d.end_block(false);
    assert!(!r.finished_block);
    assert!(r.run_evm);
    assert!(d.block.is_some());
    let next = d.begin_block(4, 4);
    assert!(!next.opened_block);
}

#[test]
fn minted_tx_finishes_block() {
    let mut d = node_in_block(DISABLE + 2);
    let r = d.end_block(true);
    assert!(r.finished_block);
    assert!(!r.run_evm);
    assert!(d.block.is_none());
}

#[test]
fn nonempty_block_finishes() {
    let mut d = node_in_block(3);
    deliver_native(&mut d, b"{tx-0}", Ok(()));
    assert!(d.end_block(false).finished_block);
    assert!(d.block.is_none());
    assert!(d.begin_block(4, 4).opened_block);
}

#[test]
fn restart_reports_committed_height_and_hash() {
    let mut d = node();
    d.begin_block(10, 10);
    assert_eq!(deliver_native(&mut d, b"{tx-a}", Ok(())), Step::Applied);
    assert!(d.end_block(false).finished_block);
    let reply = d.commit(vec![0xaa; 32], vec![0xbb; 32]);
    assert_eq!(reply.status.height, 10);
    assert_eq!(reply.app_hash.len(), 32);
    let mut joined = vec![0xaa; 32];
    joined.extend(vec![0xbb; 32]);
    assert_eq!(reply.app_hash, tx_fingerprint(&joined));

    d.history.drain();
    let landed = d.history.landed.clone();
    let mut restarted: Dispatcher<u64> =
        Dispatcher::from_status(reply.status, TxHistory::from_entries(landed));
    let info = restarted.info();
    assert_eq!(info.last_block_height, 10);
    assert_eq!(info.last_block_app_hash, Some(reply.app_hash.clone()));
    assert!(info.opened_block);
    assert_eq!(restarted.height, 10);
    assert_eq!(restarted.check_tx(b"{tx-a}", Some(PLAIN)), Admission::Reject(Reject::Historical));

    let before_restart = d.info();
    assert_eq!(before_restart.last_block_app_hash, Some(reply.app_hash));
}

#[test]
fn commit_inside_window_reports_native_root() {
    let mut d = node_in_block(DISABLE + 5);
    let reply = d.commit(vec![0xaa; 32], vec![0xbb; 32]);
    assert_eq!(reply.app_hash, vec![0xaa; 32]);
    let status = CommitStatus {
        height: reply.status.height,
        native_root: reply.status.native_root.clone(),
        evm_root: reply.status.evm_root.clone(),
        window: reply.status.window,
    };
    let mut restarted: Dispatcher<u64> = Dispatcher::from_status(status, TxHistory::new());
    assert_eq!(restarted.info().last_block_app_hash, Some(vec![0xaa; 32]));
}

#[test]
fn info_at_genesis_reports_no_hash() {
    let mut d = node();
    let info = d.info();
    assert_eq!(info.last_block_height, 0);
    assert_eq!(info.last_block_app_hash, None);
    assert!(info.opened_block);
    assert!(!d.info().opened_block);
}
