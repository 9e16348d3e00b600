//! The protocol-upgrade overlay: it upgrades the inner node's byte-stream
//! peer to a message-oriented one. Construction composes the upgrade
//! transform over whatever the inner node yields; applying the transform to
//! one peer checks the requested path against the configured restriction,
//! attaches the message/stream adapter with the configured debt policy, and
//! fixes the outgoing framing mode.

use vstd::prelude::*;

use crate::readdebt::{DebtHandling, ReadDebt};
use crate::specifier::{OverlayClass, Specifier};
use crate::ws_peer::Mode1;
use crate::{
    construct_model, pc_matches, ConstructParams, ConstructedPeers, Peer, PeerConstructor,
    ProgramState, WebsocatError,
};

verus! {

/// The upgrade overlay over one inner specifier.
#[derive(Debug)]
pub struct WsServer(pub Specifier);

impl WsServer {
    /// Construct the inner node, then compose the upgrade transform over
    /// each peer it yields; the single-vs-stream shape passes through.
    pub fn construct(&self, cp: &ConstructParams, st: &mut ProgramState) -> (r: Result<
        PeerConstructor,
        WebsocatError,
    >)
        requires
            old(st).next_conn + cp.accepted + 1 <= u64::MAX,
            old(st).constructions + cp.accepted + 1 <= u64::MAX,
        ensures
            final(st).model() == construct_model(self.0, cp.accepted as nat, old(st).model()).0,
            match r {
                Ok(pc) => construct_model(self.0, cp.accepted as nat, old(st).model()).1
                    matches Some(p) && pc_matches(
                    pc,
                    ConstructedPeers { chain: p.chain.push(OverlayClass::WsUpgrade), ..p },
                ),
                Err(e) => construct_model(self.0, cp.accepted as nat, old(st).model()).1 is None
                    && e == WebsocatError::ConnectFailure,
            },
    {
        let pc = match self.0.construct(cp, st) {
            Ok(pc) => pc,
            Err(e) => {
                return Err(e);
            },
        };
        Ok(pc.overlay(OverlayClass::WsUpgrade))
    }
}

/// The path an upgrade request asked for: an origin-form path, or anything
/// else.
#[derive(Debug)]
pub enum RequestUri {
    AbsolutePath(String),
    Other,
}

/// Does the request pass the configured restriction? No restriction passes
/// everything; a restriction passes exactly an origin-form path equal to it.
pub open spec fn uri_allowed(restrict_uri: Option<String>, uri: RequestUri) -> bool {
    match restrict_uri {
        None => true,
        Some(r) => uri matches RequestUri::AbsolutePath(p) && p@ == r@,
    }
}

/// `q` is `p` upgraded: same connection, the upgrade recorded on both
/// halves, a fresh message/stream adapter with the configured policy on the
/// read side, and the configured framing mode on the write side.
pub open spec fn upgrade_applied(p: Peer, mode1: Mode1, handling: DebtHandling, q: Peer) -> bool {
    &&& q.0.conn == p.0.conn
    &&& q.0.transforms@ == p.0.transforms@.push(OverlayClass::WsUpgrade)
    &&& (q.0.debt matches Some(d) && d.debt@.len() == 0 && d.handling == handling && !d.failed)
    &&& q.1.conn == p.1.conn
    &&& q.1.transforms@ == p.1.transforms@.push(OverlayClass::WsUpgrade)
    &&& q.1.mode == Some(mode1)
    &&& q.1.writable == p.1.writable
    &&& q.1.written == p.1.written
}

/// Upgrade one inner peer. A request whose path fails the restriction is
/// rejected with a connect failure and no peer; otherwise the upgraded peer
/// is returned.
pub fn ws_upgrade_peer(
    inner_peer: Peer,
    mode1: Mode1,
    ws_read_debt_handling: DebtHandling,
    restrict_uri: &Option<String>,
    request_uri: &RequestUri,
) -> (r: Result<Peer, WebsocatError>)
    ensures
        uri_allowed(*restrict_uri, *request_uri) ==> (r matches Ok(q) && upgrade_applied(
            inner_peer,
            mode1,
            ws_read_debt_handling,
            q,
        )),
        !uri_allowed(*restrict_uri, *request_uri) ==> r == Result::<Peer, WebsocatError>::Err(
            WebsocatError::ConnectFailure,
        ),
{
    if let Some(restrict) = restrict_uri {
        match request_uri {
            RequestUri::AbsolutePath(p) => {
                if !p.eq(restrict) {
                    return Err(WebsocatError::ConnectFailure);
                }
            },
            RequestUri::Other => {
                return Err(WebsocatError::ConnectFailure);
            },
        }
    }
    let Peer(mut rd, mut wr) = inner_peer;
    rd.transforms.push(OverlayClass::WsUpgrade);
    rd.debt = Some(ReadDebt::new(ws_read_debt_handling));
    wr.transforms.push(OverlayClass::WsUpgrade);
    wr.mode = Some(mode1);
    Ok(Peer::new(rd, wr))
}

} // verus!
