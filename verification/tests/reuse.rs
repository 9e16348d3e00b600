use websocat::broadcast_reuse_peer::{fan_out, BroadcastQueue};
use websocat::options::Options;
use websocat::primitive_reuse_peer::GlobalState;
use websocat::reconnect_peer::drive_reconnect;
use websocat::specifier::{LeafClass, OverlayClass, Specifier};
use websocat::{ConstructParams, L2rUser, LeftSpecToRightSpec, PeerConstructor, ProgramState, WebsocatError};

fn params(accepted: usize) -> ConstructParams {
    ConstructParams {
        program_options: Options::default(),
        left_to_right: L2rUser::FillIn(LeftSpecToRightSpec {}),
        accepted,
    }
}

fn reuse_tree() -> Specifier {
    Specifier::Overlay(
        OverlayClass::Reuse,
        0,
        Box::new(Specifier::Leaf(LeafClass::TcpConnect, b"a".to_vec())),
    )
}

#[test]
fn primitive_reuse_acquire_constructs_once() {
    let mut g = GlobalState::new();
    let (c1, built1) = g.acquire(4, 100);
    let (c2, built2) = g.acquire(4, 101);
    let (c3, built3) = g.acquire(4, 102);
    assert!(built1, "the first consumer triggers the real construction");
    assert!(!built2 && !built3, "later consumers share it");
    assert_eq!(c1, 100);
    assert_eq!(c2, 100);
    assert_eq!(c3, 100);
}

#[test]
fn reuse_construct_shares_one_connection() {
    let tree = reuse_tree();
    let mut st = ProgramState::new();
    let cp = params(0);
    let mut conns = Vec::new();
    for _ in 0..3 {
        match tree.construct(&cp, &mut st).unwrap() {
            PeerConstructor::ServeOnce(p) => {
                assert_eq!(p.0.conn, p.1.conn);
                conns.push(p.0.conn);
            }
            _ => panic!("reuse must yield a single-result constructor"),
        }
    }
    assert_eq!(st.constructions, 1, "exactly one underlying construction");
    assert_eq!(conns, vec![conns[0]; 3], "all consumers see the same connection");
}

#[test]
fn broadcast_queue_keeps_only_latest_q_messages() {
    let mut q = BroadcastQueue::new(2);
    for i in 0u8..5 {
        q.push(vec![i]);
    }
    // the consumer fell 3 messages behind: only the oldest excess is lost
    assert_eq!(q.items, vec![vec![3u8], vec![4u8]]);
    assert_eq!(q.pop().unwrap(), vec![3u8]);
    assert_eq!(q.pop().unwrap(), vec![4u8]);
    assert!(q.pop().is_none());
}

#[test]
fn broadcast_slow_consumer_does_not_affect_others() {
    let mut queues = vec![BroadcastQueue::new(1), BroadcastQueue::new(4)];
    for i in 0u8..3 {
        fan_out(&mut queues, &vec![i]);
    }
    // the slow consumer (capacity 1) kept only the newest message
    assert_eq!(queues[0].items, vec![vec![2u8]]);
    // the other consumer got everything, in order
    assert_eq!(queues[1].items, vec![vec![0u8], vec![1u8], vec![2u8]]);
}

#[test]
fn broadcast_construct_shares_upstream_and_is_read_only() {
    let tree = Specifier::Overlay(
        OverlayClass::Broadcast,
        0,
        Box::new(Specifier::Leaf(LeafClass::TcpConnect, b"a".to_vec())),
    );
    let mut st = ProgramState::new();
    let cp = params(0);
    let mut conns = Vec::new();
    for _ in 0..2 {
        match tree.construct(&cp, &mut st).unwrap() {
            PeerConstructor::ServeOnce(mut p) => {
                assert!(!p.1.writable, "downstream consumers may not write");
                let e = p.1.write(&vec![1u8, 2]).unwrap_err();
                assert_eq!(e, WebsocatError::UnsupportedOperation);
                assert!(p.1.written.is_empty(), "nothing was accepted");
                conns.push(p.0.conn);
            }
            _ => panic!("broadcast must yield a single-result constructor"),
        }
    }
    assert_eq!(st.constructions, 1);
    assert_eq!(conns[0], conns[1]);
}

#[test]
fn reconnect_absorbs_k_failures_then_succeeds() {
    // the connection fails twice before succeeding: the consumer sees no
    // failure at all, only the one continuous connection
    let attempts = vec![None, None, Some(7u64)];
    assert_eq!(drive_reconnect(&attempts), Some(7));
}

#[test]
fn reconnect_first_success_wins() {
    let attempts = vec![None, Some(3u64), Some(9u64)];
    assert_eq!(drive_reconnect(&attempts), Some(3));
}

#[test]
fn reconnect_with_no_success_yet_has_no_peer_and_no_error() {
    let attempts: Vec<Option<u64>> = vec![None, None];
    assert_eq!(drive_reconnect(&attempts), None);
}

#[test]
fn reconnect_construct_marks_the_wrapper() {
    let tree = Specifier::Overlay(
        OverlayClass::Reconnect,
        0,
        Box::new(Specifier::Leaf(LeafClass::TcpConnect, b"a".to_vec())),
    );
    let mut st = ProgramState::new();
    match tree.construct(&params(0), &mut st).unwrap() {
        PeerConstructor::ServeOnce(p) => {
            assert_eq!(p.0.transforms, vec![OverlayClass::Reconnect]);
            assert_eq!(p.1.transforms, vec![OverlayClass::Reconnect]);
        }
        _ => panic!("reconnect must yield a single-result constructor"),
    }
}
