//! Core of a duplex-pipe builder: it turns parsed endpoint specifiers into
//! live duplex connections ("peers"), composes overlay transforms over them,
//! bridges message-oriented transports to stream consumers, shares or fans out
//! or retries connections across logical sessions, and drives the final
//! bidirectional copy.
//!
//! Type evolution of one run:
//!
//! 1. endpoint text, as raw bytes, as passed on the command line;
//! 2. `SpecifierStack` — its organized form: overlay prefixes over one leaf;
//! 3. `Specifier` — the resolved tree, one overlay node wrapping one inner node;
//! 4. `PeerConstructor` — one or more pending connections, optionally transformed;
//! 5. `Peer` — an active connection. Two of them are paired into a
//! 6. `Session` with two `Transfer`s — forward and reverse.

use vstd::prelude::*;

pub mod options;
pub mod readdebt;
pub mod broadcast_reuse_peer;
pub mod my_copy;
pub mod primitive_reuse_peer;
pub mod reconnect_peer;
pub mod sessionserve;
pub mod specifier;
pub mod ws_peer;
pub mod ws_server_peer;

pub use crate::options::Options;
pub use crate::readdebt::DebtHandling;
pub use crate::specifier::{
    ClassMessageBoundaryStatus, ClassMulticonnectStatus, Specifier, SpecifierStack,
};

verus! {

/// Error taxonomy of the whole engine.
///
/// `Construction`: an unresolvable or malformed specifier node.
/// `ConnectFailure`: a transport-level failure to establish a peer.
/// `FramingViolation`: the message/stream adapter's strict policy fired.
/// `UnsupportedOperation`: an operation the peer cannot carry, such as a
/// write into a read-only broadcast consumer.
/// `Transfer`: a generic failure while copying.
#[derive(Clone, Copy, Debug, PartialEq, Eq, Structural)]
pub enum WebsocatError {
    Construction,
    ConnectFailure,
    FramingViolation,
    UnsupportedOperation,
    Transfer,
}

/// A run's configuration as it arrives: the options and the two endpoint
/// texts, as raw bytes.
#[derive(Debug)]
pub struct WebsocatConfiguration1 {
    pub opts: Options,
    pub addr1: Vec<u8>,
    pub addr2: Vec<u8>,
}

impl WebsocatConfiguration1 {
    /// Organize both endpoint texts into specifier stacks. Succeeds exactly
    /// when both texts parse; the options pass through untouched.
    pub fn parse1(self) -> (r: Result<WebsocatConfiguration2, WebsocatError>)
        ensures
            match r {
                Ok(c) => {
                    &&& crate::specifier::spec_parse(self.addr1@) == Some(
                        (c.s1.overlays@, c.s1.leaf, c.s1.addr@),
                    )
                    &&& crate::specifier::spec_parse(self.addr2@) == Some(
                        (c.s2.overlays@, c.s2.leaf, c.s2.addr@),
                    )
                    &&& c.opts == self.opts
                },
                Err(e) => {
                    &&& crate::specifier::spec_parse(self.addr1@) is None
                        || crate::specifier::spec_parse(self.addr2@) is None
                    &&& e == WebsocatError::Construction
                },
            },
    {
        let s1 = match SpecifierStack::from_bytes(&self.addr1) {
            Ok(s) => s,
            Err(e) => {
                return Err(e);
            },
        };
        let s2 = match SpecifierStack::from_bytes(&self.addr2) {
            Ok(s) => s,
            Err(e) => {
                return Err(e);
            },
        };
        Ok(WebsocatConfiguration2 { opts: self.opts, s1, s2 })
    }
}

/// The configuration with both endpoints organized into stacks.
#[derive(Debug)]
pub struct WebsocatConfiguration2 {
    pub opts: Options,
    pub s1: SpecifierStack,
    pub s2: SpecifierStack,
}

impl WebsocatConfiguration2 {
    /// Resolve both stacks into specifier trees, assigning every overlay its
    /// process-wide reuse slot: the left tree's overlays take slots `0..`,
    /// the right tree's continue after them.
    pub fn parse2(self) -> (r: Result<WebsocatConfiguration3, WebsocatError>)
        requires
            self.s1.overlays@.len() + self.s2.overlays@.len() <= usize::MAX,
        ensures
            r matches Ok(c) && {
                &&& crate::specifier::tree_of_stack(
                    c.s1,
                    self.s1.overlays@,
                    self.s1.leaf,
                    self.s1.addr@,
                    0,
                )
                &&& crate::specifier::tree_of_stack(
                    c.s2,
                    self.s2.overlays@,
                    self.s2.leaf,
                    self.s2.addr@,
                    self.s1.overlays@.len() as int,
                )
                &&& c.opts == self.opts
            },
    {
        let base2: usize = self.s1.overlays.len();
        let t1 = Specifier::from_stack(&self.s1, 0);
        let t2 = Specifier::from_stack(&self.s2, base2);
        Ok(WebsocatConfiguration3 { opts: self.opts, s1: t1, s2: t2 })
    }
}

/// The fully resolved configuration: two specifier trees and the options.
#[derive(Debug)]
pub struct WebsocatConfiguration3 {
    pub opts: Options,
    pub s1: Specifier,
    pub s2: Specifier,
}

impl WebsocatConfiguration3 {
    /// Run the whole composition: construct both sides against the shared
    /// state, realize their peers and pair them into sessions, given how many
    /// incoming connections the environment has delivered to each side's
    /// multi-connection leaf so far.
    pub fn serve(self, st: &mut ProgramState, accepted1: usize, accepted2: usize) -> (r: Result<
        Vec<Session>,
        WebsocatError,
    >)
        requires
            old(st).next_conn + accepted1 + accepted2 + 2 <= u64::MAX,
            old(st).constructions + accepted1 + accepted2 + 2 <= u64::MAX,
        ensures
            ({
                let t1 = construct_model(self.s1, accepted1 as nat, old(st).model());
                let t2 = construct_model(self.s2, accepted2 as nat, t1.0);
                match r {
                    Ok(sessions) => {
                        &&& t1.1 matches Some(p1) && t2.1 matches Some(p2) && {
                            &&& sessions@.len() == crate::sessionserve::spec_n_sessions(
                                p1.conns.len(),
                                !p1.single,
                                p2.conns.len(),
                                !p2.single,
                                self.opts.oneshot,
                            )
                            &&& forall|i: int|
                                0 <= i < sessions@.len() ==> crate::sessionserve::session_conns(
                                    sessions@[i],
                                    p1.conns[if !p1.single {
                                        i
                                    } else {
                                        0int
                                    }],
                                    p2.conns[if !p2.single {
                                        i
                                    } else {
                                        0int
                                    }],
                                    self.opts,
                                )
                        }
                        &&& final(st).model() == t2.0
                    },
                    Err(e) => {
                        &&& e == WebsocatError::ConnectFailure
                        &&& t1.1 is None || t2.1 is None
                        &&& final(st).model() == (if t1.1 is None {
                            t1.0
                        } else {
                            t2.0
                        })
                    },
                }
            }),
    {
        crate::sessionserve::serve(self.s1, self.s2, self.opts, st, accepted1, accepted2)
    }
}

/// Information passed from the left endpoint's construction to the right
/// one's (connection metadata forwarded left-to-right).
#[derive(Clone, Debug)]
pub struct LeftSpecToRightSpec {}

impl Default for LeftSpecToRightSpec {
    fn default() -> (r: LeftSpecToRightSpec)
        ensures
            r == (LeftSpecToRightSpec {  }),
    {
        LeftSpecToRightSpec {  }
    }
}

/// Which side of the left-to-right channel a construction holds: the left
/// side fills it in, the right side reads from it.
#[derive(Clone, Debug)]
pub enum L2rUser {
    FillIn(LeftSpecToRightSpec),
    ReadFrom(LeftSpecToRightSpec),
}

/// The readable half of one duplex connection. `conn` identifies the
/// underlying physical connection; `transforms` lists the overlays applied
/// over it, innermost-first; a message-oriented half carries the
/// message/stream adapter.
#[derive(Debug)]
pub struct PeerReader {
    pub conn: u64,
    pub transforms: Vec<crate::specifier::OverlayClass>,
    pub debt: Option<crate::readdebt::ReadDebt>,
}

/// The writable half of one duplex connection. A broadcast consumer's half
/// is read-only (`writable == false`); `written` records every byte accepted
/// so far, in order.
#[derive(Debug)]
pub struct PeerWriter {
    pub conn: u64,
    pub transforms: Vec<crate::specifier::OverlayClass>,
    pub mode: Option<crate::ws_peer::Mode1>,
    pub writable: bool,
    pub written: Vec<u8>,
}

impl PeerWriter {
    /// Accept `data` into the connection, after everything accepted before
    /// it. A read-only half — a broadcast consumer's — refuses with an
    /// unsupported-operation error and accepts nothing.
    pub fn write(&mut self, data: &Vec<u8>) -> (r: Result<usize, WebsocatError>)
        ensures
            final(self).conn == old(self).conn,
            final(self).transforms@ == old(self).transforms@,
            final(self).mode == old(self).mode,
            final(self).writable == old(self).writable,
            old(self).writable ==> (r matches Ok(n) && n == data@.len() && final(self).written@
                == old(self).written@ + data@),
            !old(self).writable ==> r == Result::<usize, WebsocatError>::Err(
                WebsocatError::UnsupportedOperation,
            ) && final(self).written@ == old(self).written@,
    {
        if !self.writable {
            return Err(WebsocatError::UnsupportedOperation);
        }
        let mut i: usize = 0;
        while i < data.len()
            invariant
                i <= data@.len(),
                self.conn == old(self).conn,
                self.transforms@ == old(self).transforms@,
                self.mode == old(self).mode,
                self.writable == old(self).writable,
                self.written@ == old(self).written@ + data@.take(i as int),
            decreases data@.len() - i,
        {
            self.written.push(data[i]);
            proof {
                assert(old(self).written@ + data@.take(i + 1) =~= (old(self).written@ + data@.take(
                    i as int,
                )).push(data@[i as int]));
            }
            i = i + 1;
        }
        proof {
            assert(data@.take(data@.len() as int) =~= data@);
        }
        Ok(data.len())
    }
}

/// One concrete duplex connection: an owned readable half and an owned
/// writable half.
#[derive(Debug)]
pub struct Peer(pub PeerReader, pub PeerWriter);

/// Does `peer` sit directly on connection `conn` with exactly the overlays
/// `applied` on it, untouched otherwise?
pub open spec fn peer_matches(
    peer: Peer,
    conn: int,
    applied: Seq<crate::specifier::OverlayClass>,
    writable: bool,
) -> bool {
    &&& peer.0.conn as int == conn
    &&& peer.1.conn as int == conn
    &&& peer.0.transforms@ == applied
    &&& peer.1.transforms@ == applied
    &&& peer.0.debt is None
    &&& peer.1.mode is None
    &&& peer.1.writable == writable
    &&& peer.1.written@ == Seq::<u8>::empty()
}

impl Peer {
    pub fn new(r: PeerReader, w: PeerWriter) -> (p: Peer)
        ensures
            p.0 == r,
            p.1 == w,
    {
        Peer(r, w)
    }
}

/// A fresh writable peer sitting directly on connection `conn`.
pub fn fresh_peer(conn: u64) -> (p: Peer)
    ensures
        peer_matches(p, conn as int, Seq::empty(), true),
{
    let p = Peer(
        PeerReader { conn, transforms: Vec::new(), debt: None },
        PeerWriter { conn, transforms: Vec::new(), mode: None, writable: true, written: Vec::new() },
    );
    p
}

/// `q` is `p` with the pending overlay chain `ch` now applied: same
/// connection, same adapter state, the chain appended to both halves'
/// transforms.
pub open spec fn chain_applied(p: Peer, ch: Seq<crate::specifier::OverlayClass>, q: Peer) -> bool {
    &&& q.0.conn == p.0.conn
    &&& q.0.transforms@ == p.0.transforms@ + ch
    &&& q.0.debt == p.0.debt
    &&& q.1.conn == p.1.conn
    &&& q.1.transforms@ == p.1.transforms@ + ch
    &&& q.1.mode == p.1.mode
    &&& q.1.writable == p.1.writable
    &&& q.1.written == p.1.written
}

fn apply_chain(p: Peer, ch: &Vec<crate::specifier::OverlayClass>) -> (q: Peer)
    ensures
        chain_applied(p, ch@, q),
{
    let Peer(mut r, mut w) = p;
    let mut i: usize = 0;
    while i < ch.len()
        invariant
            i <= ch@.len(),
            r.conn == p.0.conn,
            r.transforms@ == p.0.transforms@ + ch@.take(i as int),
            r.debt == p.0.debt,
            w.conn == p.1.conn,
            w.transforms@ == p.1.transforms@ + ch@.take(i as int),
            w.mode == p.1.mode,
            w.writable == p.1.writable,
            w.written == p.1.written,
        decreases ch@.len() - i,
    {
        r.transforms.push(ch[i]);
        w.transforms.push(ch[i]);
        proof {
            assert(p.0.transforms@ + ch@.take(i + 1) =~= (p.0.transforms@ + ch@.take(
                i as int,
            )).push(ch@[i as int]));
            assert(p.1.transforms@ + ch@.take(i + 1) =~= (p.1.transforms@ + ch@.take(
                i as int,
            )).push(ch@[i as int]));
        }
        i = i + 1;
    }
    proof {
        assert(ch@.take(ch@.len() as int) =~= ch@);
    }
    Peer(r, w)
}

/// The four-shape result of realizing a specifier: {exactly one connection,
/// a sequence of connections} × {as-is, with a pending transform chain to
/// apply to each}. An enclosing overlay composes onto the chain instead of
/// nesting, so the shape stays one of these four at any tree depth.
#[derive(Debug)]
pub enum PeerConstructor {
    ServeOnce(Peer),
    ServeMultipleTimes(Vec<Peer>),
    Overlay1(Peer, Vec<crate::specifier::OverlayClass>),
    OverlayM(Vec<Peer>, Vec<crate::specifier::OverlayClass>),
}

impl PeerConstructor {
    /// Attach one more transform: an untransformed constructor becomes a
    /// transformed one; an already-transformed one gets the new transform
    /// composed after the existing chain. The single-vs-stream shape is kept.
    pub fn overlay(self, t: crate::specifier::OverlayClass) -> (r: PeerConstructor)
        ensures
            self matches PeerConstructor::ServeOnce(p) ==> r matches PeerConstructor::Overlay1(
                q,
                ch,
            ) && q == p && ch@ == seq![t],
            self matches PeerConstructor::ServeMultipleTimes(ps) ==> r
                matches PeerConstructor::OverlayM(qs, ch) && qs == ps && ch@ == seq![t],
            self matches PeerConstructor::Overlay1(p, ch0) ==> r matches PeerConstructor::Overlay1(
                q,
                ch,
            ) && q == p && ch@ == ch0@.push(t),
            self matches PeerConstructor::OverlayM(ps, ch0) ==> r matches PeerConstructor::OverlayM(
                qs,
                ch,
            ) && qs == ps && ch@ == ch0@.push(t),
    {
        match self {
            PeerConstructor::ServeOnce(p) => {
                let mut ch: Vec<crate::specifier::OverlayClass> = Vec::new();
                ch.push(t);
                proof {
                    assert(ch@ =~= seq![t]);
                }
                PeerConstructor::Overlay1(p, ch)
            },
            PeerConstructor::ServeMultipleTimes(ps) => {
                let mut ch: Vec<crate::specifier::OverlayClass> = Vec::new();
                ch.push(t);
                proof {
                    assert(ch@ =~= seq![t]);
                }
                PeerConstructor::OverlayM(ps, ch)
            },
            PeerConstructor::Overlay1(p, mut ch) => {
                ch.push(t);
                PeerConstructor::Overlay1(p, ch)
            },
            PeerConstructor::OverlayM(ps, mut ch) => {
                ch.push(t);
                PeerConstructor::OverlayM(ps, ch)
            },
        }
    }

    /// Realize the constructor: a single-result shape yields exactly one
    /// peer, a stream shape yields each produced peer; a pending transform
    /// chain is applied to every peer independently.
    pub fn resolve(self) -> (r: Vec<Peer>)
        ensures
            self matches PeerConstructor::ServeOnce(p) ==> r@.len() == 1 && r@[0] == p,
            self matches PeerConstructor::ServeMultipleTimes(ps) ==> r == ps,
            self matches PeerConstructor::Overlay1(p, ch) ==> r@.len() == 1 && chain_applied(
                p,
                ch@,
                r@[0],
            ),
            self matches PeerConstructor::OverlayM(ps, ch) ==> r@.len() == ps@.len() && (forall|
                i: int,
            |
                0 <= i < ps@.len() ==> chain_applied(ps@[i], ch@, r@[i])),
    {
        match self {
            PeerConstructor::ServeOnce(p) => {
                let mut r: Vec<Peer> = Vec::new();
                r.push(p);
                r
            },
            PeerConstructor::ServeMultipleTimes(ps) => ps,
            PeerConstructor::Overlay1(p, ch) => {
                let mut r: Vec<Peer> = Vec::new();
                r.push(apply_chain(p, &ch));
                r
            },
            PeerConstructor::OverlayM(mut ps, ch) => {
                let ghost orig = ps@;
                let mut r: Vec<Peer> = Vec::new();
                while ps.len() > 0
                    invariant
                        r@.len() + ps@.len() == orig.len(),
                        ps@ == orig.skip(r@.len() as int),
                        forall|i: int| 0 <= i < r@.len() ==> chain_applied(orig[i], ch@, r@[i]),
                    decreases ps@.len(),
                {
                    let p = ps.remove(0);
                    assert(p == orig[r@.len() as int]);
                    r.push(apply_chain(p, &ch));
                    proof {
                        assert(ps@ =~= orig.skip(r@.len() as int));
                    }
                }
                r
            },
        }
    }
}

/// One direction of copying: an owned readable source and an owned writable
/// sink.
#[derive(Debug)]
pub struct Transfer {
    pub from: PeerReader,
    pub to: PeerWriter,
}

/// One matched peer pair's copy operation: the forward transfer and the
/// reverse transfer, either absent when its direction is suppressed.
#[derive(Debug)]
pub struct Session(pub Option<Transfer>, pub Option<Transfer>);

/// Process-wide shared state: the registries of the two reuse layers, the
/// next fresh physical-connection identity, and how many physical connections
/// have been constructed so far.
#[derive(Debug)]
pub struct ProgramState {
    pub reuser: crate::primitive_reuse_peer::GlobalState,
    pub reuser2: crate::broadcast_reuse_peer::GlobalState,
    pub next_conn: u64,
    pub constructions: u64,
}

/// Ghost image of the process-wide state, as the construction model reads
/// and writes it.
#[verifier::ext_equal]
pub struct ConstructState {
    pub reuser: Seq<Option<u64>>,
    pub reuser2: Seq<Option<u64>>,
    pub next_conn: int,
    pub constructions: int,
}

/// Ghost image of one construction's outcome: single or stream shape, the
/// connection identity under each produced peer, the overlays already applied
/// to them, the transform chain still pending, and whether consumers may
/// write.
#[verifier::ext_equal]
pub struct ConstructedPeers {
    pub single: bool,
    pub conns: Seq<int>,
    pub applied: Seq<crate::specifier::OverlayClass>,
    pub chain: Seq<crate::specifier::OverlayClass>,
    pub writable: bool,
}

impl ProgramState {
    pub open spec fn model(self) -> ConstructState {
        ConstructState {
            reuser: self.reuser.slots@,
            reuser2: self.reuser2.upstream.slots@,
            next_conn: self.next_conn as int,
            constructions: self.constructions as int,
        }
    }

    pub fn new() -> (r: ProgramState)
        ensures
            r.model() == (ConstructState {
                reuser: Seq::<Option<u64>>::empty(),
                reuser2: Seq::<Option<u64>>::empty(),
                next_conn: 0,
                constructions: 0,
            }),
    {
        let r = ProgramState {
            reuser: crate::primitive_reuse_peer::GlobalState::new(),
            reuser2: crate::broadcast_reuse_peer::GlobalState::new(),
            next_conn: 0,
            constructions: 0,
        };
        proof {
            assert(r.model() =~= ConstructState {
                reuser: Seq::<Option<u64>>::empty(),
                reuser2: Seq::<Option<u64>>::empty(),
                next_conn: 0,
                constructions: 0,
            });
        }
        r
    }
}

impl Default for ProgramState {
    fn default() -> (r: ProgramState)
        ensures
            r.model() == (ConstructState {
                reuser: Seq::<Option<u64>>::empty(),
                reuser2: Seq::<Option<u64>>::empty(),
                next_conn: 0,
                constructions: 0,
            }),
    {
        ProgramState::new()
    }
}

/// Per-construction-call context: the run-wide options, which side of the
/// left-to-right channel this call holds, and how many incoming connections
/// the environment has delivered so far for a multi-connection leaf (the
/// realized prefix of its lazy stream).
pub struct ConstructParams {
    pub program_options: Options,
    pub left_to_right: L2rUser,
    pub accepted: usize,
}

/// What constructing `s` does to the process-wide state and what it yields:
/// the functional semantics of the construction engine.
///
/// A single-connection leaf takes one fresh connection; a listener leaf takes
/// one per delivered incoming connection. A protocol upgrade composes itself
/// onto the inner result's pending chain. Primitive reuse hands out the
/// cached connection of its slot, or constructs its inner node once, realizes
/// the first peer and caches its connection; broadcast reuse does the same in
/// its own registry and makes consumers read-only. Reconnect realizes the
/// first inner peer as the one continuous endpoint. A shared-connection
/// overlay over a stream that has produced nothing yet yields `None` (a
/// connect failure).
///
/// The registries record the shared connection's identity alone, so a
/// consumer served from the cache receives a bare handle to that connection:
/// what distinguishes reuse consumers is the connection they share, which is
/// exactly what the registry pins.
pub open spec fn construct_model(s: crate::specifier::Specifier, accepted: nat, m: ConstructState) -> (
    ConstructState,
    Option<ConstructedPeers>,
)
    decreases s,
{
    match s {
        crate::specifier::Specifier::Leaf(c, _) => {
            if c is TcpListen {
                (
                    ConstructState {
                        next_conn: m.next_conn + accepted,
                        constructions: m.constructions + accepted,
                        ..m
                    },
                    Some(
                        ConstructedPeers {
                            single: false,
                            conns: Seq::new(accepted, |i: int| m.next_conn + i),
                            applied: Seq::empty(),
                            chain: Seq::empty(),
                            writable: true,
                        },
                    ),
                )
            } else {
                (
                    ConstructState {
                        next_conn: m.next_conn + 1,
                        constructions: m.constructions + 1,
                        ..m
                    },
                    Some(
                        ConstructedPeers {
                            single: true,
                            conns: seq![m.next_conn],
                            applied: Seq::empty(),
                            chain: Seq::empty(),
                            writable: true,
                        },
                    ),
                )
            }
        },
        crate::specifier::Specifier::Overlay(c, slot, inner) => {
            match c {
                crate::specifier::OverlayClass::WsUpgrade => {
                    let t = construct_model(*inner, accepted, m);
                    (
                        t.0,
                        match t.1 {
                            Some(p) => Some(
                                ConstructedPeers {
                                    chain: p.chain.push(crate::specifier::OverlayClass::WsUpgrade),
                                    ..p
                                },
                            ),
                            None => None,
                        },
                    )
                },
                crate::specifier::OverlayClass::Reuse => {
                    match crate::primitive_reuse_peer::slot_of(m.reuser, slot as int) {
                        Some(cc) => (
                            m,
                            Some(
                                ConstructedPeers {
                                    single: true,
                                    conns: seq![cc as int],
                                    applied: Seq::empty(),
                                    chain: Seq::empty(),
                                    writable: true,
                                },
                            ),
                        ),
                        None => {
                            let t = construct_model(*inner, accepted, m);
                            match t.1 {
                                Some(p) => {
                                    if p.conns.len() == 0 {
                                        (t.0, None)
                                    } else {
                                        (
                                            ConstructState {
                                                reuser: crate::primitive_reuse_peer::fill_slot(
                                                    t.0.reuser,
                                                    slot as int,
                                                    p.conns[0] as u64,
                                                ),
                                                ..t.0
                                            },
                                            Some(
                                                ConstructedPeers {
                                                    single: true,
                                                    conns: seq![p.conns[0]],
                                                    applied: p.applied + p.chain,
                                                    chain: Seq::empty(),
                                                    writable: p.writable,
                                                },
                                            ),
                                        )
                                    }
                                },
                                None => (t.0, None),
                            }
                        },
                    }
                },
                crate::specifier::OverlayClass::Broadcast => {
                    match crate::primitive_reuse_peer::slot_of(m.reuser2, slot as int) {
                        Some(cc) => (
                            m,
                            Some(
                                ConstructedPeers {
                                    single: true,
                                    conns: seq![cc as int],
                                    applied: Seq::empty(),
                                    chain: Seq::empty(),
                                    writable: false,
                                },
                            ),
                        ),
                        None => {
                            let t = construct_model(*inner, accepted, m);
                            match t.1 {
                                Some(p) => {
                                    if p.conns.len() == 0 {
                                        (t.0, None)
                                    } else {
                                        (
                                            ConstructState {
                                                reuser2: crate::primitive_reuse_peer::fill_slot(
                                                    t.0.reuser2,
                                                    slot as int,
                                                    p.conns[0] as u64,
                                                ),
                                                ..t.0
                                            },
                                            Some(
                                                ConstructedPeers {
                                                    single: true,
                                                    conns: seq![p.conns[0]],
                                                    applied: p.applied + p.chain,
                                                    chain: Seq::empty(),
                                                    writable: false,
                                                },
                                            ),
                                        )
                                    }
                                },
                                None => (t.0, None),
                            }
                        },
                    }
                },
                crate::specifier::OverlayClass::Reconnect => {
                    let t = construct_model(*inner, accepted, m);
                    match t.1 {
                        Some(p) => {
                            if p.conns.len() == 0 {
                                (t.0, None)
                            } else {
                                (
                                    t.0,
                                    Some(
                                        ConstructedPeers {
                                            single: true,
                                            conns: seq![p.conns[0]],
                                            applied: (p.applied + p.chain).push(
                                                crate::specifier::OverlayClass::Reconnect,
                                            ),
                                            chain: Seq::empty(),
                                            writable: p.writable,
                                        },
                                    ),
                                )
                            }
                        },
                        None => (t.0, None),
                    }
                },
            }
        },
    }
}

/// Does the realized constructor `pc` carry exactly what the model outcome
/// `p` prescribes?
pub open spec fn pc_matches(pc: PeerConstructor, p: ConstructedPeers) -> bool {
    match pc {
        PeerConstructor::ServeOnce(q) => p.single && p.chain.len() == 0 && p.conns.len() == 1
            && peer_matches(q, p.conns[0], p.applied, p.writable),
        PeerConstructor::Overlay1(q, ch) => p.single && ch@ == p.chain && p.chain.len() > 0
            && p.conns.len() == 1 && peer_matches(q, p.conns[0], p.applied, p.writable),
        PeerConstructor::ServeMultipleTimes(qs) => !p.single && p.chain.len() == 0 && qs@.len()
            == p.conns.len() && (forall|i: int|
            0 <= i < qs@.len() ==> peer_matches(qs@[i], p.conns[i], p.applied, p.writable)),
        PeerConstructor::OverlayM(qs, ch) => !p.single && ch@ == p.chain && p.chain.len() > 0
            && qs@.len() == p.conns.len() && (forall|i: int|
            0 <= i < qs@.len() ==> peer_matches(qs@[i], p.conns[i], p.applied, p.writable)),
    }
}

impl Specifier {
    /// Turn this specifier into pending connections, against the shared
    /// process-wide state: exactly what `construct_model` prescribes, with a
    /// connect failure reported exactly when the model yields no outcome.
    pub fn construct(&self, cp: &ConstructParams, st: &mut ProgramState) -> (r: Result<
        PeerConstructor,
        WebsocatError,
    >)
        requires
            old(st).next_conn + cp.accepted + 1 <= u64::MAX,
            old(st).constructions + cp.accepted + 1 <= u64::MAX,
        ensures
            final(st).model() == construct_model(*self, cp.accepted as nat, old(st).model()).0,
            final(st).next_conn <= old(st).next_conn + cp.accepted + 1,
            final(st).constructions <= old(st).constructions + cp.accepted + 1,
            match r {
                Ok(pc) => construct_model(*self, cp.accepted as nat, old(st).model()).1
                    matches Some(p) && pc_matches(pc, p),
                Err(e) => construct_model(*self, cp.accepted as nat, old(st).model()).1 is None
                    && e == WebsocatError::ConnectFailure,
            },
        decreases *self,
    {
        let ghost m0 = st.model();
        match self {
            Specifier::Leaf(c, _addr) => {
                if let crate::specifier::LeafClass::TcpListen = c {
                    let mut peers: Vec<Peer> = Vec::new();
                    let mut i: usize = 0;
                    while i < cp.accepted
                        invariant
                            i <= cp.accepted,
                            m0.next_conn + cp.accepted + 1 <= u64::MAX,
                            m0.constructions + cp.accepted + 1 <= u64::MAX,
                            st.next_conn == m0.next_conn + i,
                            st.constructions == m0.constructions + i,
                            st.reuser.slots@ == m0.reuser,
                            st.reuser2.upstream.slots@ == m0.reuser2,
                            peers@.len() == i,
                            forall|k: int|
                                0 <= k < i ==> peer_matches(
                                    peers@[k],
                                    m0.next_conn + k,
                                    Seq::empty(),
                                    true,
                                ),
                        decreases cp.accepted - i,
                    {
                        let p = fresh_peer(st.next_conn);
                        st.next_conn = st.next_conn + 1;
                        st.constructions = st.constructions + 1;
                        peers.push(p);
                        i = i + 1;
                    }
                    proof {
                        assert(st.model() =~= construct_model(
                            *self,
                            cp.accepted as nat,
                            m0,
                        ).0);
                    }
                    Ok(PeerConstructor::ServeMultipleTimes(peers))
                } else {
                    let p = fresh_peer(st.next_conn);
                    st.next_conn = st.next_conn + 1;
                    st.constructions = st.constructions + 1;
                    proof {
                        assert(st.model() =~= construct_model(
                            *self,
                            cp.accepted as nat,
                            m0,
                        ).0);
                    }
                    Ok(PeerConstructor::ServeOnce(p))
                }
            },
            Specifier::Overlay(c, slot, inner) => {
                match c {
                    crate::specifier::OverlayClass::WsUpgrade => {
                        let pc = match inner.construct(cp, st) {
                            Ok(pc) => pc,
                            Err(e) => {
                                return Err(e);
                            },
                        };
                        Ok(pc.overlay(crate::specifier::OverlayClass::WsUpgrade))
                    },
                    crate::specifier::OverlayClass::Reuse => {
                        match st.reuser.lookup(*slot) {
                            Some(cached) => {
                                proof {
                                    assert(st.model() =~= construct_model(
                                        *self,
                                        cp.accepted as nat,
                                        m0,
                                    ).0);
                                }
                                Ok(PeerConstructor::ServeOnce(fresh_peer(cached)))
                            },
                            None => {
                                let pc = match inner.construct(cp, st) {
                                    Ok(pc) => pc,
                                    Err(e) => {
                                        return Err(e);
                                    },
                                };
                                let mut peers = pc.resolve();
                                if peers.len() == 0 {
                                    return Err(WebsocatError::ConnectFailure);
                                }
                                let p = peers.remove(0);
                                st.reuser.store(*slot, p.0.conn);
                                proof {
                                    assert(st.model() =~= construct_model(
                                        *self,
                                        cp.accepted as nat,
                                        m0,
                                    ).0);
                                }
                                Ok(PeerConstructor::ServeOnce(p))
                            },
                        }
                    },
                    crate::specifier::OverlayClass::Broadcast => {
                        match st.reuser2.upstream.lookup(*slot) {
                            Some(cached) => {
                                let mut q = fresh_peer(cached);
                                q.1.writable = false;
                                proof {
                                    assert(st.model() =~= construct_model(
                                        *self,
                                        cp.accepted as nat,
                                        m0,
                                    ).0);
                                }
                                Ok(PeerConstructor::ServeOnce(q))
                            },
                            None => {
                                let pc = match inner.construct(cp, st) {
                                    Ok(pc) => pc,
                                    Err(e) => {
                                        return Err(e);
                                    },
                                };
                                let mut peers = pc.resolve();
                                if peers.len() == 0 {
                                    return Err(WebsocatError::ConnectFailure);
                                }
                                let mut p = peers.remove(0);
                                st.reuser2.upstream.store(*slot, p.0.conn);
                                p.1.writable = false;
                                proof {
                                    assert(st.model() =~= construct_model(
                                        *self,
                                        cp.accepted as nat,
                                        m0,
                                    ).0);
                                }
                                Ok(PeerConstructor::ServeOnce(p))
                            },
                        }
                    },
                    crate::specifier::OverlayClass::Reconnect => {
                        let pc = match inner.construct(cp, st) {
                            Ok(pc) => pc,
                            Err(e) => {
                                return Err(e);
                            },
                        };
                        let mut peers = pc.resolve();
                        if peers.len() == 0 {
                            return Err(WebsocatError::ConnectFailure);
                        }
                        let mut p = peers.remove(0);
                        p.0.transforms.push(crate::specifier::OverlayClass::Reconnect);
                        p.1.transforms.push(crate::specifier::OverlayClass::Reconnect);
                        Ok(PeerConstructor::ServeOnce(p))
                    },
                }
            },
        }
    }
}

} // verus!
