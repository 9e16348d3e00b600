//! The session driver: pair the peers of two realized constructors and
//! describe the bidirectional copy between each pair.
//!
//! Pairing rule: two single-result sides pair their one peer each, for one
//! session. A single-result side against a stream side has its one fixed peer
//! paired with every peer the stream produces. Two stream sides pair
//! index-wise in arrival order. `oneshot` stops after the first session.

use vstd::prelude::*;

use crate::options::Options;
use crate::specifier::OverlayClass;
use crate::{Peer, PeerConstructor, PeerReader, PeerWriter, Session, Transfer};

verus! {

/// Where one direction of copying stands.
#[derive(Clone, Copy, Debug, PartialEq, Eq, Structural)]
pub enum TransferStatus {
    Running,
    Eof,
    Failed,
}

/// How many sessions pairing yields: one when both sides are single; the
/// stream side's count when one side is single; index-wise pairing (the
/// shorter realized side) when both are streams; at most one under `oneshot`.
pub open spec fn spec_n_sessions(
    l: nat,
    l_multi: bool,
    r: nat,
    r_multi: bool,
    oneshot: bool,
) -> nat {
    let base: nat = if l_multi && r_multi {
        if l <= r {
            l
        } else {
            r
        }
    } else if l_multi {
        l
    } else if r_multi {
        r
    } else {
        1
    };
    if oneshot && base > 1 {
        1
    } else {
        base
    }
}

/// One session built over the pair `(lp, rp)`: the forward transfer copies
/// the left peer's reader into the right peer's writer, the reverse transfer
/// the other way; each is present exactly unless its suppression flag is set.
pub open spec fn session_links(s: Session, lp: Peer, rp: Peer, opts: Options) -> bool {
    &&& (s.0 is None <==> opts.unidirectional_reverse)
    &&& (s.0 matches Some(t) ==> {
        &&& t.from.conn == lp.0.conn
        &&& t.from.transforms@ == lp.0.transforms@
        &&& t.to.conn == rp.1.conn
        &&& t.to.transforms@ == rp.1.transforms@
        &&& t.to.writable == rp.1.writable
    })
    &&& (s.1 is None <==> opts.unidirectional)
    &&& (s.1 matches Some(t) ==> {
        &&& t.from.conn == rp.0.conn
        &&& t.from.transforms@ == rp.0.transforms@
        &&& t.to.conn == lp.1.conn
        &&& t.to.transforms@ == lp.1.transforms@
        &&& t.to.writable == lp.1.writable
    })
}

fn copy_classes(v: &Vec<OverlayClass>) -> (r: Vec<OverlayClass>)
    ensures
        r@ == v@,
{
    let mut r: Vec<OverlayClass> = Vec::new();
    let mut i: usize = 0;
    while i < v.len()
        invariant
            i <= v@.len(),
            r@ == v@.take(i as int),
        decreases v@.len() - i,
    {
        r.push(v[i]);
        i = i + 1;
    }
    proof {
        assert(r@ =~= v@);
    }
    r
}

/// A further logical handle to the same connection as `p`: same connection,
/// same overlays, same writability; its own fresh adapter and write record.
pub fn handle_of(p: &Peer) -> (q: Peer)
    ensures
        q.0.conn == p.0.conn,
        q.0.transforms@ == p.0.transforms@,
        q.0.debt is None,
        q.1.conn == p.1.conn,
        q.1.transforms@ == p.1.transforms@,
        q.1.mode == p.1.mode,
        q.1.writable == p.1.writable,
        q.1.written@ == Seq::<u8>::empty(),
{
    Peer(
        PeerReader { conn: p.0.conn, transforms: copy_classes(&p.0.transforms), debt: None },
        PeerWriter {
            conn: p.1.conn,
            transforms: copy_classes(&p.1.transforms),
            mode: p.1.mode,
            writable: p.1.writable,
            written: Vec::new(),
        },
    )
}

/// Build one session over a matched pair, honouring the two suppression
/// flags: `unidirectional` suppresses the reverse transfer,
/// `unidirectional_reverse` the forward one.
pub fn make_session(left: Peer, right: Peer, opts: &Options) -> (s: Session)
    ensures
        session_links(s, left, right, *opts),
{
    let Peer(lr, lw) = left;
    let Peer(rr, rw) = right;
    let forward = if opts.unidirectional_reverse {
        None
    } else {
        Some(Transfer { from: lr, to: rw })
    };
    let reverse = if opts.unidirectional {
        None
    } else {
        Some(Transfer { from: rr, to: lw })
    };
    Session(forward, reverse)
}

/// Pair the realized peers of the two sides and build the sessions, in
/// arrival order.
pub fn pair_sessions(
    mut lp: Vec<Peer>,
    l_multi: bool,
    mut rp: Vec<Peer>,
    r_multi: bool,
    opts: &Options,
) -> (r: Vec<Session>)
    requires
        !l_multi ==> lp@.len() == 1,
        !r_multi ==> rp@.len() == 1,
    ensures
        r@.len() == spec_n_sessions(lp@.len(), l_multi, rp@.len(), r_multi, opts.oneshot),
        forall|i: int|
            0 <= i < r@.len() ==> session_links(
                r@[i],
                lp@[if l_multi {
                    i
                } else {
                    0int
                }],
                rp@[if r_multi {
                    i
                } else {
                    0int
                }],
                *opts,
            ),
{
    let ghost lp0 = lp@;
    let ghost rp0 = rp@;
    let base: usize = if l_multi && r_multi {
        if lp.len() <= rp.len() {
            lp.len()
        } else {
            rp.len()
        }
    } else if l_multi {
        lp.len()
    } else if r_multi {
        rp.len()
    } else {
        1
    };
    let count: usize = if opts.oneshot && base > 1 {
        1
    } else {
        base
    };
    let mut out: Vec<Session> = Vec::new();
    let mut i: usize = 0;
    while i < count
        invariant
            i <= count,
            count as nat == spec_n_sessions(lp0.len(), l_multi, rp0.len(), r_multi, opts.oneshot),
            l_multi ==> lp@ == lp0.skip(i as int) && count <= lp0.len(),
            !l_multi ==> lp@ == lp0 && lp0.len() == 1,
            r_multi ==> rp@ == rp0.skip(i as int) && count <= rp0.len(),
            !r_multi ==> rp@ == rp0 && rp0.len() == 1,
            out@.len() == i,
            forall|k: int|
                0 <= k < i ==> session_links(
                    out@[k],
                    lp0[if l_multi {
                        k
                    } else {
                        0int
                    }],
                    rp0[if r_multi {
                        k
                    } else {
                        0int
                    }],
                    *opts,
                ),
        decreases count - i,
    {
        let left = if l_multi {
            let p = lp.remove(0);
            proof {
                assert(lp@ =~= lp0.skip(i + 1));
            }
            p
        } else {
            handle_of(&lp[0])
        };
        let right = if r_multi {
            let p = rp.remove(0);
            proof {
                assert(rp@ =~= rp0.skip(i + 1));
            }
            p
        } else {
            handle_of(&rp[0])
        };
        let s = make_session(left, right, opts);
        proof {
            if l_multi {
                assert(lp0.skip(i as int)[0] == lp0[i as int]);
            }
            if r_multi {
                assert(rp0.skip(i as int)[0] == rp0[i as int]);
            }
        }
        out.push(s);
        i = i + 1;
    }
    out
}

/// Is the session over? It is once every present transfer has reached end of
/// data or failed; an unrecovered failure in either direction tears the whole
/// session down at once; and under `exit_on_eof`, end of data in either
/// direction ends the session even if the other could continue.
pub open spec fn spec_session_finished(
    s: Session,
    exit_on_eof: bool,
    fwd: TransferStatus,
    rev: TransferStatus,
) -> bool {
    let fwd_term = s.0 is None || !(fwd is Running);
    let rev_term = s.1 is None || !(rev is Running);
    let any_failed = (s.0 is Some && fwd is Failed) || (s.1 is Some && rev is Failed);
    let any_eof = (s.0 is Some && fwd is Eof) || (s.1 is Some && rev is Eof);
    (fwd_term && rev_term) || any_failed || (exit_on_eof && any_eof)
}

pub fn session_finished(s: &Session, opts: &Options, fwd: TransferStatus, rev: TransferStatus) -> (r:
    bool)
    ensures
        r == spec_session_finished(*s, opts.exit_on_eof, fwd, rev),
{
    let fwd_term = match &s.0 {
        None => true,
        Some(_) => !matches!(fwd, TransferStatus::Running),
    };
    let rev_term = match &s.1 {
        None => true,
        Some(_) => !matches!(rev, TransferStatus::Running),
    };
    let any_failed = (matches!(&s.0, Some(_)) && matches!(fwd, TransferStatus::Failed)) || (
    matches!(&s.1, Some(_)) && matches!(rev, TransferStatus::Failed));
    let any_eof = (matches!(&s.0, Some(_)) && matches!(fwd, TransferStatus::Eof)) || (matches!(
        &s.1,
        Some(_),
    ) && matches!(rev, TransferStatus::Eof));
    (fwd_term && rev_term) || any_failed || (opts.exit_on_eof && any_eof)
}

/// The sessions of one matched pair, at the connection level: the forward
/// transfer reads the left connection and writes the right one, the reverse
/// transfer the other way, each present exactly unless suppressed.
pub open spec fn session_conns(s: Session, lc: int, rc: int, opts: Options) -> bool {
    &&& (s.0 is None <==> opts.unidirectional_reverse)
    &&& (s.0 matches Some(t) ==> t.from.conn as int == lc && t.to.conn as int == rc)
    &&& (s.1 is None <==> opts.unidirectional)
    &&& (s.1 matches Some(t) ==> t.from.conn as int == rc && t.to.conn as int == lc)
}

/// Construct both endpoints against the shared state, realize their peers,
/// and pair them into sessions. The whole run fails with the connect failure
/// of whichever side could not produce its peers; otherwise the sessions
/// pair the two sides' connections exactly as the pairing rule and the
/// construction model prescribe.
pub fn serve(
    s1: crate::Specifier,
    s2: crate::Specifier,
    opts: Options,
    st: &mut crate::ProgramState,
    accepted1: usize,
    accepted2: usize,
) -> (r: Result<Vec<Session>, crate::WebsocatError>)
    requires
        old(st).next_conn + accepted1 + accepted2 + 2 <= u64::MAX,
        old(st).constructions + accepted1 + accepted2 + 2 <= u64::MAX,
    ensures
        ({
            let t1 = crate::construct_model(s1, accepted1 as nat, old(st).model());
            let t2 = crate::construct_model(s2, accepted2 as nat, t1.0);
            match r {
                Ok(sessions) => {
                    &&& t1.1 matches Some(p1) && t2.1 matches Some(p2) && {
                        &&& sessions@.len() == spec_n_sessions(
                            p1.conns.len(),
                            !p1.single,
                            p2.conns.len(),
                            !p2.single,
                            opts.oneshot,
                        )
                        &&& forall|i: int|
                            0 <= i < sessions@.len() ==> session_conns(
                                sessions@[i],
                                p1.conns[if !p1.single {
                                    i
                                } else {
                                    0int
                                }],
                                p2.conns[if !p2.single {
                                    i
                                } else {
                                    0int
                                }],
                                opts,
                            )
                    }
                    &&& final(st).model() == t2.0
                },
                Err(e) => {
                    &&& e == crate::WebsocatError::ConnectFailure
                    &&& t1.1 is None || t2.1 is None
                    &&& final(st).model() == (if t1.1 is None {
                        t1.0
                    } else {
                        t2.0
                    })
                },
            }
        }),
{
    let cp1 = crate::ConstructParams {
        program_options: opts,
        left_to_right: crate::L2rUser::FillIn(crate::LeftSpecToRightSpec {  }),
        accepted: accepted1,
    };
    let pc1 = match s1.construct(&cp1, st) {
        Ok(pc) => pc,
        Err(e) => {
            return Err(e);
        },
    };
    let opts = cp1.program_options;
    let cp2 = crate::ConstructParams {
        program_options: opts,
        left_to_right: crate::L2rUser::ReadFrom(crate::LeftSpecToRightSpec {  }),
        accepted: accepted2,
    };
    let pc2 = match s2.construct(&cp2, st) {
        Ok(pc) => pc,
        Err(e) => {
            return Err(e);
        },
    };
    let opts = cp2.program_options;
    let l_multi = matches!(pc1, PeerConstructor::ServeMultipleTimes(_))
        || matches!(pc1, PeerConstructor::OverlayM(_, _));
    let r_multi = matches!(pc2, PeerConstructor::ServeMultipleTimes(_))
        || matches!(pc2, PeerConstructor::OverlayM(_, _));
    let ghost gpc1 = pc1;
    let ghost gpc2 = pc2;
    let lp = pc1.resolve();
    let rp = pc2.resolve();
    let ghost glp = lp@;
    let ghost grp = rp@;
    let ghost t1 = crate::construct_model(s1, accepted1 as nat, old(st).model());
    let ghost t2 = crate::construct_model(s2, accepted2 as nat, t1.0);
    let ghost p1 = t1.1.unwrap();
    let ghost p2 = t2.1.unwrap();
    proof {
        assert(l_multi == !p1.single);
        assert(r_multi == !p2.single);
        assert(glp.len() == p1.conns.len() && forall|i: int|
            0 <= i < glp.len() ==> glp[i].0.conn as int == p1.conns[i] && glp[i].1.conn as int
                == p1.conns[i]) by {
            match gpc1 {
                PeerConstructor::ServeOnce(q) => {
                    assert(glp[0] == q);
                },
                PeerConstructor::Overlay1(q, ch) => {
                    assert(crate::chain_applied(q, ch@, glp[0]));
                },
                PeerConstructor::ServeMultipleTimes(qs) => {
                },
                PeerConstructor::OverlayM(qs, ch) => {
                    assert(forall|i: int|
                        0 <= i < qs@.len() ==> crate::chain_applied(qs@[i], ch@, glp[i]));
                },
            }
        }
        assert(grp.len() == p2.conns.len() && forall|i: int|
            0 <= i < grp.len() ==> grp[i].0.conn as int == p2.conns[i] && grp[i].1.conn as int
                == p2.conns[i]) by {
            match gpc2 {
                PeerConstructor::ServeOnce(q) => {
                    assert(grp[0] == q);
                },
                PeerConstructor::Overlay1(q, ch) => {
                    assert(crate::chain_applied(q, ch@, grp[0]));
                },
                PeerConstructor::ServeMultipleTimes(qs) => {
                },
                PeerConstructor::OverlayM(qs, ch) => {
                    assert(forall|i: int|
                        0 <= i < qs@.len() ==> crate::chain_applied(qs@[i], ch@, grp[i]));
                },
            }
        }
    }
    let sessions = pair_sessions(lp, l_multi, rp, r_multi, &opts);
    proof {
        assert forall|i: int| 0 <= i < sessions@.len() implies session_conns(
            sessions@[i],
            p1.conns[if !p1.single {
                i
            } else {
                0int
            }],
            p2.conns[if !p2.single {
                i
            } else {
                0int
            }],
            opts,
        ) by {
            assert(session_links(
                sessions@[i],
                glp[if l_multi {
                    i
                } else {
                    0int
                }],
                grp[if r_multi {
                    i
                } else {
                    0int
                }],
                opts,
            ));
        }
    }
    Ok(sessions)
}

/// A session whose reverse transfer is suppressed ends the moment its
/// forward source reaches end of data — whatever status the suppressed
/// direction would report, and whether or not `exit_on_eof` is set.
pub proof fn lemma_unidirectional_eof_ends_session(
    s: Session,
    exit_on_eof: bool,
    rev: TransferStatus,
)
    requires
        s.1 is None,
    ensures
        spec_session_finished(s, exit_on_eof, TransferStatus::Eof, rev),
{
}

} // verus!
