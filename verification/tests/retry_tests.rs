use event_collector::retry::{delete_sql, delivered, RetryRound, RowOffer, RETRY_INTERVAL_SECS};

#[test]
fn any_success_counts() {
    assert!(!delivered(&vec![]));
    assert!(!delivered(&vec![false, false]));
    assert!(delivered(&vec![false, true, false]));
}

#[test]
fn delete_statement_has_one_placeholder_per_id() {
    assert_eq!(delete_sql(1), "DELETE FROM pending_events WHERE id IN (?)");
    assert_eq!(delete_sql(3), "DELETE FROM pending_events WHERE id IN (?,?,?)");
    let n = 7;
    let expected = format!("DELETE FROM pending_events WHERE id IN ({})", "?,".repeat(n).trim_end_matches(','));
    assert_eq!(delete_sql(n), expected);
}

#[test]
fn round_deletes_exactly_the_delivered_events() {
    let mut round = RetryRound::new();
    round.record(1, Some(&vec![true, false]));
    round.record(2, None);
    round.record(3, Some(&vec![false]));
    round.record(4, Some(&vec![]));
    round.record(5, Some(&vec![false, true]));
    let d = round.finish().expect("some deliveries");
    assert_eq!(d.ids, vec![1, 5]);
    assert_eq!(d.sql, "DELETE FROM pending_events WHERE id IN (?,?)");
}

#[test]
fn nothing_delivered_nothing_deleted() {
    let mut round = RetryRound::new();
    round.record(1, Some(&vec![false]));
    round.record(2, None);
    assert!(round.finish().is_none());
    assert!(RetryRound::new().finish().is_none());
    assert_eq!(RETRY_INTERVAL_SECS, 10);
}

#[test]
fn every_destination_gets_one_send_in_order() {
    let mut offer = RowOffer::new(3);
    let mut order = Vec::new();
    let answers = [true, false, true];
    while let Some(i) = offer.next_destination() {
        order.push(i);
        offer.record_send(answers[i]);
    }
    assert_eq!(order, vec![0, 1, 2]);
    assert_eq!(offer.outcomes(), vec![true, false, true]);
    let empty = RowOffer::new(0);
    assert_eq!(empty.next_destination(), None);
    assert!(empty.outcomes().is_empty());
}

#[test]
fn unreadable_rows_are_skipped() {
    let mut round = RetryRound::new();
    assert!(!round.begin_row(1, false));
    assert!(round.begin_row(2, true));
    round.record(2, Some(&vec![true]));
    assert_eq!(round.finish().unwrap().ids, vec![2]);
}
