use turt::trail::{ColorRgba, HistoryLog, TrailOp};

fn marker(n: i64) -> TrailOp {
    TrailOp { from_x: n, from_y: 0, to_x: n, to_y: n, color: ColorRgba::black() }
}

#[test]
fn push_keeps_everything_under_the_bound() {
    let mut log = HistoryLog::new(3);
    log.push(marker(1));
    log.push(marker(2));
    log.push(marker(3));
    assert_eq!(log.ops.len(), 3);
    assert_eq!(log.ops, vec![marker(1), marker(2), marker(3)]);
}

#[test]
fn push_beyond_bound_drops_oldest_first() {
    // Pushing 7 distinguishable markers under a bound of 3 leaves exactly
    // 3 entries: the newest ones, in push order.
    let mut log = HistoryLog::new(3);
    for n in 1..=7 {
        log.push(marker(n));
    }
    assert_eq!(log.ops.len(), 3);
    assert_eq!(log.ops, vec![marker(5), marker(6), marker(7)]);
}

#[test]
fn zero_bound_buffers_nothing() {
    let mut log = HistoryLog::new(0);
    log.push(marker(1));
    log.push(marker(2));
    assert_eq!(log.ops.len(), 0);
}

#[test]
fn drain_empties_and_replays_in_fifo_order() {
    let mut log = HistoryLog::new(10);
    for n in 1..=4 {
        log.push(marker(n));
    }
    let drained = log.drain();
    assert_eq!(drained, vec![marker(1), marker(2), marker(3), marker(4)]);
    assert_eq!(log.ops.len(), 0);
    let empty = log.drain();
    assert!(empty.is_empty());
}

#[test]
fn shrinking_the_bound_is_not_retroactive() {
    // Shrinking max_depth below the buffered length evicts nothing until
    // the next push triggers truncation; that push then enforces the new
    // bound.
    let mut log = HistoryLog::new(5);
    for n in 1..=3 {
        log.push(marker(n));
    }
    log.set_max_depth(1);
    assert_eq!(log.ops.len(), 3);
    log.push(marker(9));
    assert_eq!(log.ops, vec![marker(9)]);
}
