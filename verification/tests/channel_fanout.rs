use pegasus::aggregate::AggregateBatchPush;
use pegasus::batch::{EndSignal, MicroBatch};
use pegasus::channel::{ChannelInfo, Port};
use pegasus::error::IoError;
use pegasus::evented::EventEmitter;
use pegasus::tag::Tag;
use pegasus::transport::{FaultPlan, GeneralPush};

fn info(scope_level: u32) -> ChannelInfo {
    ChannelInfo::new(7, scope_level, Port::new(1, 0), Port::new(2, 0))
}

fn links(n: u32) -> Vec<GeneralPush<MicroBatch<u64>>> {
    (0..n).map(GeneralPush::new).collect()
}

fn agg(
    n: u32,
    target: u32,
    scope_level: u32,
    push: Vec<GeneralPush<MicroBatch<u64>>>,
) -> AggregateBatchPush<u64> {
    assert!(u64::from(target) < u64::from(n));
    assert_eq!(push.len(), n as usize);
    AggregateBatchPush::new(info(scope_level), 0, target, false, push, EventEmitter::new())
}

fn batch(tag: Tag, seq_no: u64, data: Vec<u64>) -> MicroBatch<u64> {
    MicroBatch::new(tag, seq_no, data)
}

#[test]
fn new_extracts_target_and_keeps_peer_identity() {
    let a = agg(3, 1, 2, links(3));
    assert_eq!(a.data_push.target_worker, 1);
    assert_eq!(a.event_peers(), 2);
    assert_eq!(a.event_push.len(), 2);
    // removing entry 1 moves the last entry (worker 2) into its place
    assert_eq!(a.event_push[0].target_worker, 0);
    assert_eq!(a.event_push[1].target_worker, 2);
    assert_eq!(a.data_push.signal_count(), 0);
    assert_eq!(a.data_push.batch_count(), 0);
}

#[test]
fn new_with_target_last_pops_cleanly() {
    let a = agg(3, 2, 2, links(3));
    assert_eq!(a.data_push.target_worker, 2);
    assert_eq!(a.event_push[0].target_worker, 0);
    assert_eq!(a.event_push[1].target_worker, 1);
}

#[test]
fn port_returns_local_port() {
    let a = agg(2, 0, 1, links(2));
    assert_eq!(a.port(), Port::new(1, 0));
}

#[test]
fn push_routes_to_target_only() {
    // non-root, below-threshold-free tags, acyclic region: only the
    // resolved target peer ever receives the batches.
    let mut a = agg(3, 1, 2, links(3));
    for s in 0..3u64 {
        let t = Tag::new(vec![0]);
        let b = batch(Tag::new(vec![0]), s, vec![s, s + 1]);
        assert_eq!(a.push(&t, b), Ok(()));
    }
    assert_eq!(a.data_push.batch_count(), 3);
    for p in &a.event_push {
        assert_eq!(p.batch_count(), 0);
        assert_eq!(p.signal_count(), 0);
    }
    assert_eq!(a.data_push.signal_count(), 0);
}

#[test]
fn push_last_root_broadcasts_signal() {
    // a root-tagged final batch delivers the signal to all N-1
    // non-target event pushes beside the data push.
    let mut a = agg(3, 1, 2, links(3));
    let b = batch(Tag::root(), 0, vec![9]);
    let sig = EndSignal::new(Tag::root(), 0);
    assert_eq!(a.push_last(b, sig), Ok(()));
    assert_eq!(a.event_push[0].signal_count(), 1);
    assert_eq!(a.event_push[1].signal_count(), 1);
    assert!(a.event_push[0].signal_at(0).tag.is_root());
    assert_eq!(a.data_push.batch_count(), 1);
    assert_eq!(a.data_push.signal_count(), 1);
}

#[test]
fn push_last_non_root_stays_unicast() {
    let mut a = agg(3, 1, 2, links(3));
    let b = batch(Tag::new(vec![4]), 0, vec![]);
    let sig = EndSignal::new(Tag::new(vec![4]), 0);
    assert_eq!(a.push_last(b, sig), Ok(()));
    assert_eq!(a.event_push[0].signal_count(), 0);
    assert_eq!(a.event_push[1].signal_count(), 0);
    assert_eq!(a.data_push.batch_count(), 1);
    assert_eq!(a.data_push.signal_count(), 1);
}

#[test]
fn notify_end_threshold_rule() {
    // with threshold k = 2, level < 2 broadcasts; level >= 2
    // (non-root, flag false) reaches the data push alone.
    let mut a = agg(3, 1, 2, links(3));
    assert_eq!(a.notify_end(EndSignal::new(Tag::new(vec![0]), 0)), Ok(()));
    assert_eq!(a.event_push[0].signal_count(), 1);
    assert_eq!(a.event_push[1].signal_count(), 1);
    assert_eq!(a.data_push.signal_count(), 1);

    assert_eq!(a.notify_end(EndSignal::new(Tag::new(vec![0, 0]), 0)), Ok(()));
    assert_eq!(a.event_push[0].signal_count(), 1);
    assert_eq!(a.event_push[1].signal_count(), 1);
    assert_eq!(a.data_push.signal_count(), 2);
}

#[test]
fn notify_end_root_broadcasts_even_at_threshold_zero() {
    let mut a = agg(3, 1, 0, links(3));
    // non-root at threshold 0: never below threshold, no broadcast
    assert_eq!(a.notify_end(EndSignal::new(Tag::new(vec![1]), 0)), Ok(()));
    assert_eq!(a.event_push[0].signal_count(), 0);
    // root always broadcasts
    assert_eq!(a.notify_end(EndSignal::new(Tag::root(), 0)), Ok(()));
    assert_eq!(a.event_push[0].signal_count(), 1);
    assert_eq!(a.event_push[1].signal_count(), 1);
    assert_eq!(a.data_push.signal_count(), 2);
}

#[test]
fn cycle_flag_turns_leaf_signals_into_broadcasts() {
    // before the flag is set, a deep identifier stays unicast; once
    // set, every notify_end broadcasts, and nothing resets the flag.
    let mut a = agg(3, 1, 2, links(3));
    assert_eq!(a.notify_end(EndSignal::new(Tag::new(vec![0, 0]), 0)), Ok(()));
    assert_eq!(a.event_push[0].signal_count(), 0);
    assert_eq!(a.event_push[1].signal_count(), 0);

    a.mark_cycles();
    assert!(a.has_cycles);
    assert_eq!(a.notify_end(EndSignal::new(Tag::new(vec![0, 0]), 0)), Ok(()));
    assert_eq!(a.event_push[0].signal_count(), 1);
    assert_eq!(a.event_push[1].signal_count(), 1);

    // still set after further operations of every kind
    let t = Tag::new(vec![0]);
    let b = batch(Tag::new(vec![0]), 1, vec![1]);
    assert_eq!(a.push(&t, b), Ok(()));
    assert_eq!(a.flush(), Ok(()));
    assert!(a.has_cycles);
    assert_eq!(a.notify_end(EndSignal::new(Tag::new(vec![5, 6, 7]), 0)), Ok(()));
    assert_eq!(a.event_push[0].signal_count(), 2);
    assert_eq!(a.event_push[1].signal_count(), 2);
}

#[test]
fn close_fails_fast_on_first_faulty_peer() {
    // the k-th event push's close fails: no later event push nor the
    // data push is closed, and the error is exactly that k-th failure.
    let mut push = links(4);
    push[1].set_faults(FaultPlan { on_push: false, on_flush: false, on_close: true });
    let mut a = agg(4, 3, 2, push);
    // event pushes hold workers 0, 1, 2 in order
    assert_eq!(a.event_push[1].target_worker, 1);
    assert_eq!(a.close(), Err(IoError { worker: 1 }));
    assert!(a.event_push[0].inner.closed);
    assert!(!a.event_push[1].inner.closed);
    assert!(!a.event_push[2].inner.closed);
    assert!(!a.data_push.inner.closed);
}

#[test]
fn close_closes_events_then_data() {
    let mut a = agg(3, 1, 2, links(3));
    assert_eq!(a.close(), Ok(()));
    assert!(a.event_push[0].inner.closed);
    assert!(a.event_push[1].inner.closed);
    assert!(a.data_push.inner.closed);
}

#[test]
fn flush_touches_only_the_data_push() {
    // a fault injected into every event push's flush path is never
    // triggered by flush(); only the data push is flushed.
    let mut push = links(3);
    push[0].set_faults(FaultPlan { on_push: false, on_flush: true, on_close: false });
    push[2].set_faults(FaultPlan { on_push: false, on_flush: true, on_close: false });
    let mut a = agg(3, 1, 2, push);
    assert_eq!(a.flush(), Ok(()));
    assert!(a.data_push.inner.flushed);
    assert!(!a.event_push[0].inner.flushed);
    assert!(!a.event_push[1].inner.flushed);
}

#[test]
fn flush_reports_data_push_fault() {
    let mut push = links(3);
    push[1].set_faults(FaultPlan { on_push: false, on_flush: true, on_close: false });
    let mut a = agg(3, 1, 2, push);
    assert_eq!(a.flush(), Err(IoError { worker: 1 }));
    assert!(!a.data_push.inner.flushed);
}

#[test]
fn push_reports_data_push_fault() {
    let mut push = links(3);
    push[1].set_faults(FaultPlan { on_push: true, on_flush: false, on_close: false });
    let mut a = agg(3, 1, 2, push);
    let t = Tag::new(vec![0]);
    let b = batch(Tag::new(vec![0]), 0, vec![1]);
    assert_eq!(a.push(&t, b), Err(IoError { worker: 1 }));
    assert_eq!(a.data_push.batch_count(), 0);
}

#[test]
fn notify_end_broadcast_fails_fast() {
    // first faulty event peer aborts the broadcast; the data push never
    // sees the signal
    let mut push = links(4);
    push[1].set_faults(FaultPlan { on_push: true, on_flush: false, on_close: false });
    let mut a = agg(4, 3, 2, push);
    assert_eq!(a.notify_end(EndSignal::new(Tag::root(), 0)), Err(IoError { worker: 1 }));
    assert_eq!(a.event_push[0].signal_count(), 1);
    assert_eq!(a.event_push[1].signal_count(), 0);
    assert_eq!(a.event_push[2].signal_count(), 0);
    assert_eq!(a.data_push.signal_count(), 0);
}

#[test]
fn push_last_root_broadcast_fails_fast() {
    let mut push = links(3);
    push[0].set_faults(FaultPlan { on_push: true, on_flush: false, on_close: false });
    let mut a = agg(3, 1, 2, push);
    let b = batch(Tag::root(), 0, vec![1]);
    let sig = EndSignal::new(Tag::root(), 0);
    assert_eq!(a.push_last(b, sig), Err(IoError { worker: 0 }));
    assert_eq!(a.data_push.batch_count(), 0);
    assert_eq!(a.data_push.signal_count(), 0);
}

#[test]
fn single_peer_channel_has_no_event_push() {
    let mut a = agg(1, 0, 2, links(1));
    assert_eq!(a.event_push.len(), 0);
    assert_eq!(a.notify_end(EndSignal::new(Tag::root(), 0)), Ok(()));
    assert_eq!(a.data_push.signal_count(), 1);
}

#[test]
fn end_to_end_scenario_three_peers() {
    // 3 peers, target = peer 1, threshold = 2.
    let mut a = agg(3, 1, 2, links(3));

    // notify_end for [0] (level 1 < 2): broadcasts to peers 0 and 2
    assert_eq!(a.notify_end(EndSignal::new(Tag::new(vec![0]), 0)), Ok(()));
    assert_eq!(a.event_push[0].signal_count(), 1);
    assert_eq!(a.event_push[1].signal_count(), 1);
    assert_eq!(a.data_push.signal_count(), 1);

    // notify_end for [0,0] (level 2, not < 2), flag false: peer 1 only
    assert_eq!(a.notify_end(EndSignal::new(Tag::new(vec![0, 0]), 0)), Ok(()));
    assert_eq!(a.event_push[0].signal_count(), 1);
    assert_eq!(a.event_push[1].signal_count(), 1);
    assert_eq!(a.data_push.signal_count(), 2);

    // set the flag; repeat [0,0]: now broadcasts to peers 0 and 2 as well
    a.mark_cycles();
    assert_eq!(a.notify_end(EndSignal::new(Tag::new(vec![0, 0]), 0)), Ok(()));
    assert_eq!(a.event_push[0].signal_count(), 2);
    assert_eq!(a.event_push[1].signal_count(), 2);
    assert_eq!(a.data_push.signal_count(), 3);
    let s = a.event_push[0].signal_at(1);
    assert_eq!(s.tag.level(), 2);
    assert_eq!(s.tag.index_at(0), 0);
}

#[test]
fn tag_and_signal_basics() {
    let root = Tag::root();
    assert!(root.is_root());
    assert_eq!(root.level(), 0);
    let t = Tag::new(vec![3, 1]);
    assert!(!t.is_root());
    assert_eq!(t.level(), 2);
    assert_eq!(t.index_at(0), 3);
    assert_eq!(t.index_at(1), 1);
    assert_eq!(t.clone(), t);
    let s = EndSignal::new(Tag::new(vec![3, 1]), 5);
    let c = s.clone();
    assert_eq!(c, s);
    let b = batch(Tag::new(vec![3, 1]), 0, vec![10, 20, 30]);
    assert_eq!(b.len(), 3);
}
