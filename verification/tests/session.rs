use websocat::my_copy::copy_chunks;
use websocat::options::Options;
use websocat::readdebt::DebtHandling;
use websocat::sessionserve::{make_session, pair_sessions, session_finished, TransferStatus};
use websocat::specifier::{LeafClass, OverlayClass, Specifier};
use websocat::ws_peer::Mode1;
use websocat::ws_server_peer::{ws_upgrade_peer, RequestUri, WsServer};
use websocat::{
    fresh_peer, PeerConstructor, ProgramState, Session, WebsocatConfiguration3, WebsocatError,
};

#[test]
fn pairing_single_against_stream_of_three() {
    // one single-result side, one stream side producing 3 peers:
    // exactly 3 sessions, each pairing the fixed peer with one of the 3
    let opts = Options::default();
    let mut st = ProgramState::new();
    let cfg = WebsocatConfiguration3 {
        opts,
        s1: Specifier::Leaf(LeafClass::TcpConnect, b"fixed".to_vec()),
        s2: Specifier::Leaf(LeafClass::TcpListen, b"l".to_vec()),
    };
    let sessions = cfg.serve(&mut st, 0, 3).unwrap();
    assert_eq!(sessions.len(), 3);
    let fixed: u64 = sessions[0].0.as_ref().unwrap().from.conn;
    let mut right_conns = Vec::new();
    for s in &sessions {
        let fwd = s.0.as_ref().unwrap();
        let rev = s.1.as_ref().unwrap();
        assert_eq!(fwd.from.conn, fixed, "the fixed peer is in every pair");
        assert_eq!(rev.to.conn, fixed);
        assert_eq!(fwd.to.conn, rev.from.conn);
        right_conns.push(fwd.to.conn);
    }
    right_conns.dedup();
    assert_eq!(right_conns.len(), 3, "each session pairs a distinct produced peer");
}

#[test]
fn full_pipeline_from_text_to_sessions() {
    let c1 = websocat::WebsocatConfiguration1 {
        opts: Options::default(),
        addr1: b"ws-l:127.0.0.1:8808".to_vec(),
        addr2: b"-".to_vec(),
    };
    let c3 = c1.parse1().unwrap().parse2().unwrap();
    let mut st = ProgramState::new();
    // the environment delivered two incoming connections to the listener
    let sessions = c3.serve(&mut st, 2, 0).unwrap();
    assert_eq!(sessions.len(), 2, "one session per accepted connection");
    for s in &sessions {
        let fwd = s.0.as_ref().unwrap();
        assert_eq!(
            fwd.from.transforms,
            vec![OverlayClass::WsUpgrade],
            "each listener peer went through the upgrade overlay"
        );
    }
    assert_eq!(st.constructions, 3, "two accepted connections and one fixed endpoint");
}

#[test]
fn pairing_both_single_gives_one_session() {
    let mut st = ProgramState::new();
    let cfg = WebsocatConfiguration3 {
        opts: Options::default(),
        s1: Specifier::Leaf(LeafClass::TcpConnect, b"a".to_vec()),
        s2: Specifier::Leaf(LeafClass::Mirror, b"".to_vec()),
    };
    let sessions = cfg.serve(&mut st, 0, 0).unwrap();
    assert_eq!(sessions.len(), 1);
}

#[test]
fn pairing_oneshot_stops_after_first_session() {
    let mut st = ProgramState::new();
    let mut opts = Options::default();
    opts.oneshot = true;
    let cfg = WebsocatConfiguration3 {
        opts,
        s1: Specifier::Leaf(LeafClass::TcpConnect, b"a".to_vec()),
        s2: Specifier::Leaf(LeafClass::TcpListen, b"l".to_vec()),
    };
    let sessions = cfg.serve(&mut st, 0, 3).unwrap();
    assert_eq!(sessions.len(), 1);
}

#[test]
fn pairing_two_streams_pairs_indexwise() {
    let lp = vec![fresh_peer(10), fresh_peer(11)];
    let rp = vec![fresh_peer(20), fresh_peer(21), fresh_peer(22)];
    let sessions = pair_sessions(lp, true, rp, true, &Options::default());
    assert_eq!(sessions.len(), 2, "the shorter realized side bounds the pairing");
    let f0 = sessions[0].0.as_ref().unwrap();
    assert_eq!((f0.from.conn, f0.to.conn), (10, 20));
    let f1 = sessions[1].0.as_ref().unwrap();
    assert_eq!((f1.from.conn, f1.to.conn), (11, 21));
}

#[test]
fn unidirectional_suppresses_reverse_transfer() {
    let mut opts = Options::default();
    opts.unidirectional = true;
    let s = make_session(fresh_peer(1), fresh_peer(2), &opts);
    assert!(s.0.is_some());
    assert!(s.1.is_none());
}

#[test]
fn unidirectional_with_exit_on_eof_ends_on_forward_eof() {
    // a session with only a forward transfer ends as soon as the forward
    // source reaches end of data, waiting on nothing from the suppressed
    // reverse direction
    let mut opts = Options::default();
    opts.unidirectional = true;
    opts.exit_on_eof = true;
    let s = make_session(fresh_peer(1), fresh_peer(2), &opts);
    assert!(!session_finished(&s, &opts, TransferStatus::Running, TransferStatus::Running));
    assert!(session_finished(&s, &opts, TransferStatus::Eof, TransferStatus::Running));
}

#[test]
fn exit_on_eof_ends_even_if_other_direction_runs() {
    let mut opts = Options::default();
    opts.exit_on_eof = true;
    let s = make_session(fresh_peer(1), fresh_peer(2), &opts);
    assert!(!session_finished(&s, &opts, TransferStatus::Running, TransferStatus::Running));
    assert!(session_finished(&s, &opts, TransferStatus::Eof, TransferStatus::Running));
    assert!(session_finished(&s, &opts, TransferStatus::Running, TransferStatus::Eof));
}

#[test]
fn without_exit_on_eof_both_directions_must_finish() {
    let opts = Options::default();
    let s = make_session(fresh_peer(1), fresh_peer(2), &opts);
    assert!(!session_finished(&s, &opts, TransferStatus::Eof, TransferStatus::Running));
    assert!(session_finished(&s, &opts, TransferStatus::Eof, TransferStatus::Eof));
}

#[test]
fn a_failed_transfer_tears_the_session_down() {
    let opts = Options::default();
    let s = make_session(fresh_peer(1), fresh_peer(2), &opts);
    assert!(session_finished(&s, &opts, TransferStatus::Failed, TransferStatus::Running));
}

#[test]
fn empty_session_is_finished() {
    let s = Session(None, None);
    let opts = Options::default();
    assert!(session_finished(&s, &opts, TransferStatus::Running, TransferStatus::Running));
}

#[test]
fn a_writable_peer_accepts_bytes_in_order() {
    let mut p = fresh_peer(3);
    assert_eq!(p.1.write(&vec![1u8, 2]).unwrap(), 2);
    assert_eq!(p.1.write(&vec![3u8]).unwrap(), 1);
    assert_eq!(p.1.written, vec![1u8, 2, 3]);
}

#[test]
fn copy_chunks_moves_bytes_in_order() {
    let src: Vec<u8> = (0u8..7).collect();
    let chunks = copy_chunks(&src, 3);
    assert_eq!(chunks, vec![vec![0u8, 1, 2], vec![3u8, 4, 5], vec![6u8]]);
    assert_eq!(chunks.concat(), src);
    let whole = copy_chunks(&src, 100);
    assert_eq!(whole, vec![src.clone()]);
    let none = copy_chunks(&Vec::new(), 4);
    assert!(none.is_empty());
}

#[test]
fn ws_server_composes_the_upgrade_over_its_inner_node() {
    let ws = WsServer(Specifier::Leaf(LeafClass::TcpConnect, b"a".to_vec()));
    let mut st = ProgramState::new();
    let cp = websocat::ConstructParams {
        program_options: Options::default(),
        left_to_right: websocat::L2rUser::FillIn(websocat::LeftSpecToRightSpec {}),
        accepted: 0,
    };
    match ws.construct(&cp, &mut st).unwrap() {
        PeerConstructor::Overlay1(_, chain) => {
            assert_eq!(chain, vec![OverlayClass::WsUpgrade]);
        }
        _ => panic!("a single inner node must give a transformed single result"),
    }
    // over a listener the stream shape passes through
    let ws_l = WsServer(Specifier::Leaf(LeafClass::TcpListen, b"l".to_vec()));
    let cp2 = websocat::ConstructParams {
        program_options: Options::default(),
        left_to_right: websocat::L2rUser::FillIn(websocat::LeftSpecToRightSpec {}),
        accepted: 2,
    };
    match ws_l.construct(&cp2, &mut st).unwrap() {
        PeerConstructor::OverlayM(peers, chain) => {
            assert_eq!(peers.len(), 2);
            assert_eq!(chain, vec![OverlayClass::WsUpgrade]);
        }
        _ => panic!("a stream inner node must give a transformed stream"),
    }
}

#[test]
fn overlay_composition_appends_not_nests() {
    let pc = PeerConstructor::ServeOnce(fresh_peer(5));
    let pc = pc.overlay(OverlayClass::WsUpgrade).overlay(OverlayClass::WsUpgrade);
    match pc {
        PeerConstructor::Overlay1(_, chain) => {
            assert_eq!(chain, vec![OverlayClass::WsUpgrade, OverlayClass::WsUpgrade]);
        }
        _ => panic!("composition must keep the single-result transformed shape"),
    }
}

#[test]
fn resolve_applies_the_pending_chain() {
    let pc = PeerConstructor::ServeOnce(fresh_peer(5)).overlay(OverlayClass::WsUpgrade);
    let peers = pc.resolve();
    assert_eq!(peers.len(), 1);
    assert_eq!(peers[0].0.transforms, vec![OverlayClass::WsUpgrade]);
    assert_eq!(peers[0].0.conn, 5);
}

#[test]
fn ws_upgrade_accepts_matching_uri_and_attaches_the_adapter() {
    let q = ws_upgrade_peer(
        fresh_peer(9),
        Mode1::Text,
        DebtHandling::Error,
        &Some(String::from("/chat")),
        &RequestUri::AbsolutePath(String::from("/chat")),
    )
    .unwrap();
    assert_eq!(q.0.conn, 9);
    assert_eq!(q.0.transforms, vec![OverlayClass::WsUpgrade]);
    let debt = q.0.debt.unwrap();
    assert_eq!(debt.handling, DebtHandling::Error);
    assert!(debt.debt.is_empty());
    assert!(!debt.failed);
    assert_eq!(q.1.mode, Some(Mode1::Text));
}

#[test]
fn ws_upgrade_rejects_mismatched_uri() {
    let e = ws_upgrade_peer(
        fresh_peer(9),
        Mode1::Binary,
        DebtHandling::Silent,
        &Some(String::from("/chat")),
        &RequestUri::AbsolutePath(String::from("/other")),
    )
    .unwrap_err();
    assert_eq!(e, WebsocatError::ConnectFailure);
    let e2 = ws_upgrade_peer(
        fresh_peer(9),
        Mode1::Binary,
        DebtHandling::Silent,
        &Some(String::from("/chat")),
        &RequestUri::Other,
    )
    .unwrap_err();
    assert_eq!(e2, WebsocatError::ConnectFailure);
}

#[test]
fn ws_upgrade_without_restriction_accepts_anything() {
    let q = ws_upgrade_peer(
        fresh_peer(1),
        Mode1::Binary,
        DebtHandling::Silent,
        &None,
        &RequestUri::Other,
    )
    .unwrap();
    assert_eq!(q.1.mode, Some(Mode1::Binary));
}

#[test]
fn reuse_over_an_unproduced_stream_is_a_connect_failure() {
    let tree = Specifier::Overlay(
        OverlayClass::Reuse,
        0,
        Box::new(Specifier::Leaf(LeafClass::TcpListen, b"l".to_vec())),
    );
    let mut st = ProgramState::new();
    let cp = websocat::ConstructParams {
        program_options: Options::default(),
        left_to_right: websocat::L2rUser::FillIn(websocat::LeftSpecToRightSpec {}),
        accepted: 0,
    };
    let e = tree.construct(&cp, &mut st).unwrap_err();
    assert_eq!(e, WebsocatError::ConnectFailure);
}
