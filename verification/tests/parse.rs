use websocat::options::Options;
use websocat::readdebt::DebtHandling;
use websocat::specifier::{
    leaf_message_boundary, leaf_multiconnect, overlay_message_boundary, overlay_multiconnect,
    ClassMessageBoundaryStatus, ClassMulticonnectStatus, LeafClass, OverlayClass, Specifier,
    SpecifierStack,
};
use websocat::{WebsocatConfiguration1, WebsocatError};

#[test]
fn from_str_single_overlay() {
    let st = SpecifierStack::from_str("ws-u:tcp:127.0.0.1:1234").unwrap();
    assert_eq!(st.overlays, vec![OverlayClass::WsUpgrade]);
    assert_eq!(st.leaf, LeafClass::TcpConnect);
    assert_eq!(st.addr, b"127.0.0.1:1234".to_vec());
}

#[test]
fn from_str_dash_is_stdio() {
    let st = SpecifierStack::from_str("-").unwrap();
    assert!(st.overlays.is_empty());
    assert_eq!(st.leaf, LeafClass::Stdio);
    assert!(st.addr.is_empty());
}

#[test]
fn from_str_overlay_chain_order_is_outermost_first() {
    let st = SpecifierStack::from_str("autoreconnect:broadcast:reuse:mirror:").unwrap();
    assert_eq!(
        st.overlays,
        vec![OverlayClass::Reconnect, OverlayClass::Broadcast, OverlayClass::Reuse]
    );
    assert_eq!(st.leaf, LeafClass::Mirror);
    assert!(st.addr.is_empty());
}

#[test]
fn from_str_listener_vs_client_prefixes() {
    let l = SpecifierStack::from_str("tcp-l:0.0.0.0:80").unwrap();
    assert_eq!(l.leaf, LeafClass::TcpListen);
    assert_eq!(l.addr, b"0.0.0.0:80".to_vec());
    let c = SpecifierStack::from_str("tcp:0.0.0.0:80").unwrap();
    assert_eq!(c.leaf, LeafClass::TcpConnect);
}

#[test]
fn from_str_ws_listen_alias_expands_to_upgrade_over_listener() {
    let st = SpecifierStack::from_str("ws-l:127.0.0.1:8808").unwrap();
    assert_eq!(st.overlays, vec![OverlayClass::WsUpgrade]);
    assert_eq!(st.leaf, LeafClass::TcpListen);
    assert_eq!(st.addr, b"127.0.0.1:8808".to_vec());
}

#[test]
fn from_str_unknown_prefix_is_rejected() {
    let e = SpecifierStack::from_str("foo:bar").unwrap_err();
    assert_eq!(e, WebsocatError::Construction);
    assert!(SpecifierStack::from_str("").is_err());
}

#[test]
fn parse1_organizes_both_endpoints() {
    let c1 = WebsocatConfiguration1 {
        opts: Options::default(),
        addr1: b"ws-u:tcp-l:127.0.0.1:8080".to_vec(),
        addr2: b"mirror:".to_vec(),
    };
    let c2 = c1.parse1().unwrap();
    assert_eq!(c2.s1.overlays, vec![OverlayClass::WsUpgrade]);
    assert_eq!(c2.s1.leaf, LeafClass::TcpListen);
    assert_eq!(c2.s2.leaf, LeafClass::Mirror);
}

#[test]
fn parse1_rejects_bad_endpoint() {
    let c1 = WebsocatConfiguration1 {
        opts: Options::default(),
        addr1: b"tcp:x".to_vec(),
        addr2: b"nonsense".to_vec(),
    };
    assert_eq!(c1.parse1().unwrap_err(), WebsocatError::Construction);
}

#[test]
fn parse2_assigns_slots_left_then_right() {
    let c1 = WebsocatConfiguration1 {
        opts: Options::default(),
        addr1: b"reuse:tcp:a".to_vec(),
        addr2: b"broadcast:reuse:tcp:b".to_vec(),
    };
    let c3 = c1.parse1().unwrap().parse2().unwrap();
    match c3.s1 {
        Specifier::Overlay(OverlayClass::Reuse, slot, inner) => {
            assert_eq!(slot, 0);
            assert!(matches!(*inner, Specifier::Leaf(LeafClass::TcpConnect, _)));
        }
        _ => panic!("left tree has the wrong shape"),
    }
    match c3.s2 {
        Specifier::Overlay(OverlayClass::Broadcast, slot, inner) => {
            assert_eq!(slot, 1);
            match *inner {
                Specifier::Overlay(OverlayClass::Reuse, slot2, ref leaf) => {
                    assert_eq!(slot2, 2);
                    assert!(matches!(**leaf, Specifier::Leaf(LeafClass::TcpConnect, _)));
                }
                _ => panic!("inner tree has the wrong shape"),
            }
        }
        _ => panic!("right tree has the wrong shape"),
    }
}

#[test]
fn options_defaults() {
    let o = Options::default();
    assert_eq!(o.buffer_size, 65536);
    assert_eq!(o.broadcast_queue_len, 16);
    assert_eq!(o.read_debt_handling, DebtHandling::Silent);
    assert!(!o.unidirectional);
    assert!(!o.unidirectional_reverse);
    assert!(!o.exit_on_eof);
    assert!(!o.oneshot);
    assert!(o.restrict_uri.is_none());
    assert!(o.exec_args.is_empty());
}

#[test]
fn class_metadata() {
    assert_eq!(
        leaf_multiconnect(LeafClass::TcpListen),
        ClassMulticonnectStatus::MultiConnect
    );
    assert_eq!(
        leaf_multiconnect(LeafClass::TcpConnect),
        ClassMulticonnectStatus::SingleConnect
    );
    assert_eq!(
        leaf_message_boundary(LeafClass::Mirror),
        ClassMessageBoundaryStatus::MessageOriented
    );
    assert_eq!(
        leaf_message_boundary(LeafClass::Stdio),
        ClassMessageBoundaryStatus::StreamOriented
    );
    assert_eq!(
        overlay_multiconnect(OverlayClass::WsUpgrade),
        ClassMulticonnectStatus::MulticonnectnessDependsOnInnerType
    );
    assert_eq!(
        overlay_multiconnect(OverlayClass::Reuse),
        ClassMulticonnectStatus::SingleConnect
    );
    assert_eq!(
        overlay_message_boundary(OverlayClass::WsUpgrade),
        ClassMessageBoundaryStatus::MessageOriented
    );
    assert_eq!(
        overlay_message_boundary(OverlayClass::Broadcast),
        ClassMessageBoundaryStatus::MessageBoundaryStatusDependsOnInnerType
    );
}
