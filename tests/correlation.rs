use async_channel::TryRecvError;
use mosquitto_rs::{finish_operation, Error, Outcome, PendingTable};

#[test]
fn acknowledgement_resolves_with_issued_id() {
    let mut table = PendingTable::new();
    let rx = table.register(17);
    assert!(table.is_pending(17));
    assert_eq!(table.acknowledge(17), Outcome::Delivered);
    let got = rx.try_recv().ok();
    assert_eq!(got, Some(17));
    assert_eq!(finish_operation(got), Ok(17));
    assert_eq!(table.len(), 0);
}

#[test]
fn second_acknowledgement_is_a_noop() {
    let mut table = PendingTable::new();
    let rx = table.register(3);
    assert_eq!(table.acknowledge(3), Outcome::Delivered);
    assert_eq!(table.acknowledge(3), Outcome::Unmatched);
    assert_eq!(rx.try_recv(), Ok(3));
    assert_eq!(rx.try_recv(), Err(TryRecvError::Closed));
    assert!(!table.is_pending(3));
}

#[test]
fn acknowledgement_without_waiter_is_unmatched() {
    let mut table = PendingTable::new();
    assert_eq!(table.acknowledge(99), Outcome::Unmatched);
    assert!(!Outcome::Unmatched.needs_disconnect());
    assert_eq!(table.len(), 0);
}

#[test]
fn dropped_waiter_leaves_no_entry() {
    let mut table = PendingTable::new();
    let rx = table.register(5);
    drop(rx);
    assert_eq!(table.acknowledge(5), Outcome::Discarded);
    assert!(!table.is_pending(5));
    assert_eq!(table.len(), 0);
}

#[test]
fn lost_completion_is_its_own_error() {
    assert_eq!(finish_operation(None), Err(Error::CompletionLost));
}

#[test]
fn replaced_waiter_sees_closed_signal() {
    let mut table = PendingTable::new();
    let first = table.register(8);
    let second = table.register(8);
    assert_eq!(first.try_recv(), Err(TryRecvError::Closed));
    assert_eq!(table.acknowledge(8), Outcome::Delivered);
    assert_eq!(second.try_recv(), Ok(8));
}

#[test]
fn interleaved_acknowledgements_reach_their_own_waiters() {
    // Several rounds of registrations and acknowledgements in a shuffled order.
    let mut seed: u64 = 0x2545_f491_4f6c_dd1d;
    for round in 0..50 {
        let mut table = PendingTable::new();
        let n = 2 + (round % 9) as i32;
        let mut waiters = Vec::new();
        for mid in 1..=n {
            waiters.push((mid, table.register(mid)));
        }
        let mut order: Vec<i32> = (1..=n).collect();
        for i in (1..order.len()).rev() {
            seed = seed.wrapping_mul(6364136223846793005).wrapping_add(1442695040888963407);
            let j = (seed >> 33) as usize % (i + 1);
            order.swap(i, j);
        }
        for mid in &order {
            assert_eq!(table.acknowledge(*mid), Outcome::Delivered);
            // a duplicate acknowledgement never reaches anyone
            assert_eq!(table.acknowledge(*mid), Outcome::Unmatched);
        }
        for (mid, rx) in &waiters {
            assert_eq!(rx.try_recv(), Ok(*mid));
            assert!(rx.try_recv().is_err());
        }
        assert_eq!(table.len(), 0);
    }
}
