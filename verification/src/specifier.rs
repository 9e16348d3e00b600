//! Endpoint specifiers.
//!
//! The text of one endpoint is a chain of overlay prefixes over one leaf:
//! `broadcast:autoreconnect:ws-u:tcp:host:port`. Parsing peels the known
//! prefixes into a `SpecifierStack`; resolving the stack yields the
//! `Specifier` tree, each overlay node wrapping exactly one inner node.
//! Per-class static metadata declares message-vs-stream orientation and
//! whether construction may yield more than one peer over time.

use vstd::prelude::*;
use vstd::string::StrSliceExecFns;
use vstd::string::StringSliceAdditionalSpecFns;

use crate::WebsocatError;

verus! {

/// Leaf transports: each creates a physical connection.
#[derive(Clone, Copy, Debug, PartialEq, Eq, Structural)]
pub enum LeafClass {
    TcpConnect,
    TcpListen,
    Stdio,
    Mirror,
}

/// Overlays: each transforms the peer of its inner node instead of creating
/// a new physical connection.
#[derive(Clone, Copy, Debug, PartialEq, Eq, Structural)]
pub enum OverlayClass {
    WsUpgrade,
    Reuse,
    Broadcast,
    Reconnect,
}

/// Static metadata: does the class deliver whole messages or a byte stream?
#[derive(Clone, Copy, Debug, PartialEq, Eq, Structural)]
pub enum ClassMessageBoundaryStatus {
    StreamOriented,
    MessageOriented,
    MessageBoundaryStatusDependsOnInnerType,
}

/// Static metadata: can construction yield more than one peer over time?
#[derive(Clone, Copy, Debug, PartialEq, Eq, Structural)]
pub enum ClassMulticonnectStatus {
    MultiConnect,
    SingleConnect,
    MulticonnectnessDependsOnInnerType,
}

pub fn leaf_message_boundary(c: LeafClass) -> (r: ClassMessageBoundaryStatus)
    ensures
        r == (match c {
            LeafClass::Mirror => ClassMessageBoundaryStatus::MessageOriented,
            _ => ClassMessageBoundaryStatus::StreamOriented,
        }),
{
    match c {
        LeafClass::Mirror => ClassMessageBoundaryStatus::MessageOriented,
        _ => ClassMessageBoundaryStatus::StreamOriented,
    }
}

pub fn leaf_multiconnect(c: LeafClass) -> (r: ClassMulticonnectStatus)
    ensures
        r == (match c {
            LeafClass::TcpListen => ClassMulticonnectStatus::MultiConnect,
            _ => ClassMulticonnectStatus::SingleConnect,
        }),
{
    match c {
        LeafClass::TcpListen => ClassMulticonnectStatus::MultiConnect,
        _ => ClassMulticonnectStatus::SingleConnect,
    }
}

pub fn overlay_message_boundary(c: OverlayClass) -> (r: ClassMessageBoundaryStatus)
    ensures
        r == (match c {
            OverlayClass::WsUpgrade => ClassMessageBoundaryStatus::MessageOriented,
            _ => ClassMessageBoundaryStatus::MessageBoundaryStatusDependsOnInnerType,
        }),
{
    match c {
        OverlayClass::WsUpgrade => ClassMessageBoundaryStatus::MessageOriented,
        _ => ClassMessageBoundaryStatus::MessageBoundaryStatusDependsOnInnerType,
    }
}

pub fn overlay_multiconnect(c: OverlayClass) -> (r: ClassMulticonnectStatus)
    ensures
        r == (match c {
            OverlayClass::WsUpgrade => ClassMulticonnectStatus::MulticonnectnessDependsOnInnerType,
            _ => ClassMulticonnectStatus::SingleConnect,
        }),
{
    match c {
        OverlayClass::WsUpgrade => ClassMulticonnectStatus::MulticonnectnessDependsOnInnerType,
        _ => ClassMulticonnectStatus::SingleConnect,
    }
}

/// One endpoint text, organized: overlay prefixes outermost-first over one
/// leaf class and the leaf's address bytes.
#[derive(Debug)]
pub struct SpecifierStack {
    pub overlays: Vec<OverlayClass>,
    pub leaf: LeafClass,
    pub addr: Vec<u8>,
}

/// The resolved tree. Each overlay node carries the process-wide reuse-slot
/// number it was assigned when the stack was resolved.
#[derive(Debug)]
pub enum Specifier {
    Leaf(LeafClass, Vec<u8>),
    Overlay(OverlayClass, usize, Box<Specifier>),
}

pub open spec fn ws_u_prefix() -> Seq<u8> {
    seq![119u8, 115u8, 45u8, 117u8, 58u8]
}

pub open spec fn reuse_prefix() -> Seq<u8> {
    seq![114u8, 101u8, 117u8, 115u8, 101u8, 58u8]
}

pub open spec fn broadcast_prefix() -> Seq<u8> {
    seq![98u8, 114u8, 111u8, 97u8, 100u8, 99u8, 97u8, 115u8, 116u8, 58u8]
}

pub open spec fn reconnect_prefix() -> Seq<u8> {
    seq![97u8, 117u8, 116u8, 111u8, 114u8, 101u8, 99u8, 111u8, 110u8, 110u8, 101u8, 99u8, 116u8, 58u8]
}

pub open spec fn ws_l_prefix() -> Seq<u8> {
    seq![119u8, 115u8, 45u8, 108u8, 58u8]
}

pub open spec fn tcp_l_prefix() -> Seq<u8> {
    seq![116u8, 99u8, 112u8, 45u8, 108u8, 58u8]
}

pub open spec fn tcp_prefix() -> Seq<u8> {
    seq![116u8, 99u8, 112u8, 58u8]
}

pub open spec fn stdio_prefix() -> Seq<u8> {
    seq![115u8, 116u8, 100u8, 105u8, 111u8, 58u8]
}

pub open spec fn mirror_prefix() -> Seq<u8> {
    seq![109u8, 105u8, 114u8, 114u8, 111u8, 114u8, 58u8]
}

pub open spec fn starts_with(s: Seq<u8>, p: Seq<u8>) -> bool {
    p.len() <= s.len() && s.take(p.len() as int) == p
}

/// What the specifier text `s` means: the overlay classes outermost-first,
/// the leaf class, and the leaf's address bytes; `None` when no known prefix
/// applies.
pub open spec fn spec_parse(s: Seq<u8>) -> Option<(Seq<OverlayClass>, LeafClass, Seq<u8>)>
    decreases s.len(),
{
    if starts_with(s, ws_u_prefix()) {
        match spec_parse(s.skip(5)) {
            Some(t) => Some((seq![OverlayClass::WsUpgrade].add(t.0), t.1, t.2)),
            None => None,
        }
    } else if starts_with(s, reuse_prefix()) {
        match spec_parse(s.skip(6)) {
            Some(t) => Some((seq![OverlayClass::Reuse].add(t.0), t.1, t.2)),
            None => None,
        }
    } else if starts_with(s, broadcast_prefix()) {
        match spec_parse(s.skip(10)) {
            Some(t) => Some((seq![OverlayClass::Broadcast].add(t.0), t.1, t.2)),
            None => None,
        }
    } else if starts_with(s, reconnect_prefix()) {
        match spec_parse(s.skip(14)) {
            Some(t) => Some((seq![OverlayClass::Reconnect].add(t.0), t.1, t.2)),
            None => None,
        }
    } else if starts_with(s, ws_l_prefix()) {
        // alias: a listening upgrade endpoint is the upgrade overlay over a
        // listener leaf
        Some((seq![OverlayClass::WsUpgrade], LeafClass::TcpListen, s.skip(5)))
    } else if starts_with(s, tcp_l_prefix()) {
        Some((Seq::empty(), LeafClass::TcpListen, s.skip(6)))
    } else if starts_with(s, tcp_prefix()) {
        Some((Seq::empty(), LeafClass::TcpConnect, s.skip(4)))
    } else if starts_with(s, stdio_prefix()) {
        Some((Seq::empty(), LeafClass::Stdio, s.skip(6)))
    } else if starts_with(s, mirror_prefix()) {
        Some((Seq::empty(), LeafClass::Mirror, s.skip(7)))
    } else if s == seq![45u8] {
        Some((Seq::empty(), LeafClass::Stdio, Seq::empty()))
    } else {
        None
    }
}

fn starts_with_at(v: &Vec<u8>, pos: usize, pat: &Vec<u8>) -> (r: bool)
    requires
        pos <= v@.len(),
    ensures
        r == starts_with(v@.skip(pos as int), pat@),
{
    let n: usize = v.len();
    let m: usize = pat.len();
    if n - pos < m {
        return false;
    }
    let mut i: usize = 0;
    while i < m
        invariant
            i <= m,
            m == pat@.len(),
            n == v@.len(),
            pos + m <= n,
            forall|k: int| 0 <= k < i ==> v@[pos + k] == pat@[k],
        decreases m - i,
    {
        if v[pos + i] != pat[i] {
            assert(v@.skip(pos as int).take(pat@.len() as int)[i as int] != pat@[i as int]);
            return false;
        }
        i = i + 1;
    }
    proof {
        assert(v@.skip(pos as int).take(pat@.len() as int) =~= pat@);
    }
    true
}

fn tail_from(v: &Vec<u8>, pos: usize) -> (r: Vec<u8>)
    requires
        pos <= v@.len(),
    ensures
        r@ == v@.skip(pos as int),
{
    let mut r: Vec<u8> = Vec::new();
    let mut i: usize = pos;
    while i < v.len()
        invariant
            pos <= i <= v@.len(),
            r@ == v@.subrange(pos as int, i as int),
        decreases v@.len() - i,
    {
        r.push(v[i]);
        i = i + 1;
    }
    proof {
        assert(r@ =~= v@.skip(pos as int));
    }
    r
}

fn parse_at(v: &Vec<u8>, pos: usize) -> (r: Result<SpecifierStack, WebsocatError>)
    requires
        pos <= v@.len(),
    ensures
        match r {
            Ok(st) => spec_parse(v@.skip(pos as int)) == Some((st.overlays@, st.leaf, st.addr@)),
            Err(e) => spec_parse(v@.skip(pos as int)) is None && e == WebsocatError::Construction,
        },
    decreases v@.len() - pos,
{
    let s = Ghost(v@.skip(pos as int));
    let n: usize = v.len();
    let pat_ws_u: Vec<u8> = vec![119u8, 115u8, 45u8, 117u8, 58u8];
    if starts_with_at(v, pos, &pat_ws_u) {
        proof {
            assert(pos + 5 <= n);
            assert(s@.skip(5) =~= v@.skip(pos + 5));
        }
        match parse_at(v, pos + 5) {
            Ok(mut st) => {
                st.overlays.insert(0, OverlayClass::WsUpgrade);
                proof {
                    assert(seq![OverlayClass::WsUpgrade].add(st.overlays@.skip(1)) =~= st.overlays@);
                }
                return Ok(st);
            },
            Err(e) => {
                return Err(e);
            },
        }
    }
    let pat_reuse: Vec<u8> = vec![114u8, 101u8, 117u8, 115u8, 101u8, 58u8];
    if starts_with_at(v, pos, &pat_reuse) {
        proof {
            assert(pos + 6 <= n);
            assert(s@.skip(6) =~= v@.skip(pos + 6));
        }
        match parse_at(v, pos + 6) {
            Ok(mut st) => {
                st.overlays.insert(0, OverlayClass::Reuse);
                proof {
                    assert(seq![OverlayClass::Reuse].add(st.overlays@.skip(1)) =~= st.overlays@);
                }
                return Ok(st);
            },
            Err(e) => {
                return Err(e);
            },
        }
    }
    let pat_broadcast: Vec<u8> = vec![98u8, 114u8, 111u8, 97u8, 100u8, 99u8, 97u8, 115u8, 116u8, 58u8];
    if starts_with_at(v, pos, &pat_broadcast) {
        proof {
            assert(pos + 10 <= n);
            assert(s@.skip(10) =~= v@.skip(pos + 10));
        }
        match parse_at(v, pos + 10) {
            Ok(mut st) => {
                st.overlays.insert(0, OverlayClass::Broadcast);
                proof {
                    assert(seq![OverlayClass::Broadcast].add(st.overlays@.skip(1)) =~= st.overlays@);
                }
                return Ok(st);
            },
            Err(e) => {
                return Err(e);
            },
        }
    }
    let pat_reconnect: Vec<u8> = vec![
        97u8,
        117u8,
        116u8,
        111u8,
        114u8,
        101u8,
        99u8,
        111u8,
        110u8,
        110u8,
        101u8,
        99u8,
        116u8,
        58u8,
    ];
    if starts_with_at(v, pos, &pat_reconnect) {
        proof {
            assert(pos + 14 <= n);
            assert(s@.skip(14) =~= v@.skip(pos + 14));
        }
        match parse_at(v, pos + 14) {
            Ok(mut st) => {
                st.overlays.insert(0, OverlayClass::Reconnect);
                proof {
                    assert(seq![OverlayClass::Reconnect].add(st.overlays@.skip(1)) =~= st.overlays@);
                }
                return Ok(st);
            },
            Err(e) => {
                return Err(e);
            },
        }
    }
    let pat_ws_l: Vec<u8> = vec![119u8, 115u8, 45u8, 108u8, 58u8];
    if starts_with_at(v, pos, &pat_ws_l) {
        proof {
            assert(pos + 5 <= n);
        }
        let mut overlays: Vec<OverlayClass> = Vec::new();
        overlays.push(OverlayClass::WsUpgrade);
        proof {
            assert(overlays@ =~= seq![OverlayClass::WsUpgrade]);
        }
        return Ok(
            SpecifierStack { overlays, leaf: LeafClass::TcpListen, addr: tail_from(v, pos + 5) },
        );
    }
    let pat_tcp_l: Vec<u8> = vec![116u8, 99u8, 112u8, 45u8, 108u8, 58u8];
    if starts_with_at(v, pos, &pat_tcp_l) {
        proof {
            assert(pos + 6 <= n);
            assert(s@.skip(6) =~= v@.skip(pos + 6));
        }
        return Ok(
            SpecifierStack {
                overlays: Vec::new(),
                leaf: LeafClass::TcpListen,
                addr: tail_from(v, pos + 6),
            },
        );
    }
    let pat_tcp: Vec<u8> = vec![116u8, 99u8, 112u8, 58u8];
    if starts_with_at(v, pos, &pat_tcp) {
        proof {
            assert(pos + 4 <= n);
            assert(s@.skip(4) =~= v@.skip(pos + 4));
        }
        return Ok(
            SpecifierStack {
                overlays: Vec::new(),
                leaf: LeafClass::TcpConnect,
                addr: tail_from(v, pos + 4),
            },
        );
    }
    let pat_stdio: Vec<u8> = vec![115u8, 116u8, 100u8, 105u8, 111u8, 58u8];
    if starts_with_at(v, pos, &pat_stdio) {
        proof {
            assert(pos + 6 <= n);
            assert(s@.skip(6) =~= v@.skip(pos + 6));
        }
        return Ok(
            SpecifierStack {
                overlays: Vec::new(),
                leaf: LeafClass::Stdio,
                addr: tail_from(v, pos + 6),
            },
        );
    }
    let pat_mirror: Vec<u8> = vec![109u8, 105u8, 114u8, 114u8, 111u8, 114u8, 58u8];
    if starts_with_at(v, pos, &pat_mirror) {
        proof {
            assert(pos + 7 <= n);
            assert(s@.skip(7) =~= v@.skip(pos + 7));
        }
        return Ok(
            SpecifierStack {
                overlays: Vec::new(),
                leaf: LeafClass::Mirror,
                addr: tail_from(v, pos + 7),
            },
        );
    }
    if v.len() - pos == 1 && v[pos] == 45u8 {
        proof {
            assert(s@ =~= seq![45u8]);
        }
        return Ok(
            SpecifierStack { overlays: Vec::new(), leaf: LeafClass::Stdio, addr: Vec::new() },
        );
    }
    proof {
        if s@.len() == 1 {
            assert(s@[0] == v@[pos as int]);
            assert(s@ != seq![45u8]) by {
                assert(seq![45u8][0] == 45u8);
            }
        }
    }
    Err(WebsocatError::Construction)
}

impl SpecifierStack {
    /// Organize one endpoint text: peel the known overlay prefixes, then the
    /// leaf prefix; the rest of the text is the leaf's address. Succeeds
    /// exactly on the texts that `spec_parse` accepts.
    pub fn from_str(text: &str) -> (r: Result<SpecifierStack, WebsocatError>)
        ensures
            match r {
                Ok(st) => spec_parse(text.spec_bytes()) == Some(
                    (st.overlays@, st.leaf, st.addr@),
                ),
                Err(e) => spec_parse(text.spec_bytes()) is None && e
                    == WebsocatError::Construction,
            },
    {
        let v = text.as_bytes_vec();
        SpecifierStack::from_bytes(&v)
    }

    /// The same organization, from the text's bytes.
    pub fn from_bytes(v: &Vec<u8>) -> (r: Result<SpecifierStack, WebsocatError>)
        ensures
            match r {
                Ok(st) => spec_parse(v@) == Some((st.overlays@, st.leaf, st.addr@)),
                Err(e) => spec_parse(v@) is None && e == WebsocatError::Construction,
            },
    {
        proof {
            assert(v@.skip(0) =~= v@);
        }
        parse_at(v, 0)
    }
}

/// The tree that resolving a stack must yield: overlays folded
/// outermost-first around the leaf, the overlay at stack index `i` holding
/// slot `base + i`.
pub open spec fn tree_of_stack(
    t: Specifier,
    overlays: Seq<OverlayClass>,
    leaf: LeafClass,
    addr: Seq<u8>,
    base: int,
) -> bool
    decreases overlays.len(),
{
    if overlays.len() == 0 {
        &&& t matches Specifier::Leaf(l, a)
        &&& l == leaf
        &&& a@ == addr
    } else {
        &&& t matches Specifier::Overlay(c, slot, inner)
        &&& c == overlays[0]
        &&& slot == base
        &&& tree_of_stack(*inner, overlays.skip(1), leaf, addr, base + 1)
    }
}

impl Specifier {
    /// Resolve a stack into its tree, assigning reuse slots `base`,
    /// `base + 1`, ... to the overlays, outermost-first.
    pub fn from_stack(stack: &SpecifierStack, base: usize) -> (r: Specifier)
        requires
            base + stack.overlays@.len() <= usize::MAX,
        ensures
            tree_of_stack(r, stack.overlays@, stack.leaf, stack.addr@, base as int),
    {
        let n: usize = stack.overlays.len();
        let mut t = Specifier::Leaf(stack.leaf, tail_from(&stack.addr, 0));
        proof {
            assert(stack.addr@.skip(0) =~= stack.addr@);
            assert(stack.overlays@.subrange(n as int, n as int) =~= Seq::<OverlayClass>::empty());
        }
        let mut i: usize = n;
        while i > 0
            invariant
                i <= n,
                n == stack.overlays@.len(),
                base + n <= usize::MAX,
                tree_of_stack(
                    t,
                    stack.overlays@.subrange(i as int, n as int),
                    stack.leaf,
                    stack.addr@,
                    base + i,
                ),
            decreases i,
        {
            i = i - 1;
            t = Specifier::Overlay(stack.overlays[i], base + i, Box::new(t));
            proof {
                assert(stack.overlays@.subrange(i as int, n as int).skip(1) =~= stack.overlays@
                    .subrange(i + 1, n as int));
            }
        }
        proof {
            assert(stack.overlays@.subrange(0, n as int) =~= stack.overlays@);
        }
        t
    }

    /// May this tree's construction yield more than one peer over time? A
    /// listener leaf can; a protocol upgrade passes its inner node's answer
    /// through; the reuse, broadcast and reconnect overlays each present one
    /// continuous endpoint.
    pub open spec fn is_multiconnect(self) -> bool
        decreases self,
    {
        match self {
            Specifier::Leaf(c, _) => c is TcpListen,
            Specifier::Overlay(c, _, inner) => c is WsUpgrade && inner.is_multiconnect(),
        }
    }
}

} // verus!
