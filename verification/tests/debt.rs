use websocat::readdebt::{DebtHandling, ReadDebt};
use websocat::WebsocatError;

fn drain_all(d: &mut ReadDebt, cap: usize, first: Vec<u8>) -> Vec<Vec<u8>> {
    let mut reads = vec![first];
    while let Some(more) = d.check_debt(cap) {
        reads.push(more);
    }
    reads
}

#[test]
fn exact_delivery_m10_c3() {
    let mut d = ReadDebt::new(DebtHandling::Silent);
    let msg: Vec<u8> = (0u8..10).collect();
    let first = d.process_message(3, &msg).unwrap();
    let reads = drain_all(&mut d, 3, first);
    assert_eq!(reads.len(), 4, "ceil(10/3) reads");
    assert_eq!(
        reads,
        vec![vec![0, 1, 2], vec![3, 4, 5], vec![6, 7, 8], vec![9]]
    );
    let flat: Vec<u8> = reads.concat();
    assert_eq!(flat, msg);
}

#[test]
fn exact_delivery_divisible() {
    let mut d = ReadDebt::new(DebtHandling::Silent);
    let msg: Vec<u8> = (0u8..6).collect();
    let first = d.process_message(3, &msg).unwrap();
    let reads = drain_all(&mut d, 3, first);
    assert_eq!(reads.len(), 2);
    assert_eq!(reads.concat(), msg);
}

#[test]
fn capacity_larger_than_message() {
    let mut d = ReadDebt::new(DebtHandling::Silent);
    let msg = vec![5u8, 6, 7];
    let first = d.process_message(100, &msg).unwrap();
    assert_eq!(first, msg);
    assert!(d.check_debt(100).is_none(), "no debt left");
}

#[test]
fn empty_message_gives_one_empty_read() {
    let mut d = ReadDebt::new(DebtHandling::Silent);
    let first = d.process_message(4, &Vec::new()).unwrap();
    assert!(first.is_empty());
    assert!(d.check_debt(4).is_none());
}

#[test]
fn error_policy_fails_connection_and_stays_failed() {
    let mut d = ReadDebt::new(DebtHandling::Error);
    let msg1 = vec![1u8, 2, 3, 4, 5];
    let _ = d.process_message(2, &msg1).unwrap();
    // debt of [3,4,5] is outstanding when the next message arrives
    let e = d.process_message(2, &vec![9u8]).unwrap_err();
    assert_eq!(e, WebsocatError::FramingViolation);
    // no further bytes are delivered, ever
    assert!(d.check_debt(2).is_none());
    let e2 = d.process_message(2, &vec![8u8]).unwrap_err();
    assert_eq!(e2, WebsocatError::FramingViolation);
}

#[test]
fn error_policy_without_outstanding_debt_is_fine() {
    let mut d = ReadDebt::new(DebtHandling::Error);
    let first = d.process_message(8, &vec![1u8, 2]).unwrap();
    assert_eq!(first, vec![1, 2]);
    let second = d.process_message(8, &vec![3u8]).unwrap();
    assert_eq!(second, vec![3]);
}

#[test]
fn silent_policy_never_interleaves_two_messages() {
    let mut d = ReadDebt::new(DebtHandling::Silent);
    let msg1 = vec![1u8, 1, 1, 1, 1];
    let _ = d.process_message(2, &msg1).unwrap();
    // debt from msg1 still outstanding; a new message arrives
    let msg2 = vec![2u8, 3, 4, 5, 6];
    let first = d.process_message(2, &msg2).unwrap();
    let reads = drain_all(&mut d, 2, first);
    // every read is a contiguous piece of msg2 alone, in order
    assert_eq!(reads, vec![vec![2, 3], vec![4, 5], vec![6]]);
    assert_eq!(reads.concat(), msg2);
}

#[test]
fn warn_policy_continues_delivering() {
    let mut d = ReadDebt::new(DebtHandling::Warn);
    let _ = d.process_message(1, &vec![7u8, 8]).unwrap();
    let first = d.process_message(1, &vec![9u8]).unwrap();
    assert_eq!(first, vec![9]);
}

#[test]
fn check_debt_serves_only_stored_debt() {
    let mut d = ReadDebt::new(DebtHandling::Silent);
    assert!(d.check_debt(3).is_none());
    let _ = d.process_message(1, &vec![4u8, 5, 6]).unwrap();
    assert_eq!(d.check_debt(1).unwrap(), vec![5]);
    assert_eq!(d.check_debt(10).unwrap(), vec![6]);
    assert!(d.check_debt(1).is_none());
}
