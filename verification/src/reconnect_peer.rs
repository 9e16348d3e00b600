//! The reconnect wrapper. Whenever the active connection of its subordinate
//! node reports end-of-data or an error, the wrapper discards it and
//! re-invokes construction to obtain a replacement instead of propagating the
//! failure outward; the consumer sees one continuous duplex endpoint. The
//! retry policy is immediate retry with no attempt ceiling, the safe minimal
//! default. Writes issued while no live replacement exists block until one is
//! ready, so with only failed attempts so far the wrapper simply has no peer
//! yet — and still no error.

use vstd::prelude::*;

verus! {

/// The first successful construction attempt, if any: `attempts[i]` is
/// `Some(conn)` when the `i`-th attempt produced connection `conn` and
/// `None` when it failed. The result carries the attempt's index and its
/// connection.
pub open spec fn first_success(attempts: Seq<Option<u64>>) -> Option<(int, u64)>
    decreases attempts.len(),
{
    if attempts.len() == 0 {
        None
    } else {
        match attempts[0] {
            Some(c) => Some((0, c)),
            None => match first_success(attempts.skip(1)) {
                Some(p) => Some((p.0 + 1, p.1)),
                None => None,
            },
        }
    }
}

/// If every attempt before `i` failed and attempt `i` succeeded with `c`,
/// then attempt `i` is the first success.
proof fn lemma_first_success_at(attempts: Seq<Option<u64>>, i: int, c: u64)
    requires
        0 <= i < attempts.len(),
        forall|k: int| 0 <= k < i ==> attempts[k] is None,
        attempts[i] == Some(c),
    ensures
        first_success(attempts) == Some((i, c)),
    decreases i,
{
    if i > 0 {
        assert(forall|k: int| 0 <= k < i - 1 ==> attempts.skip(1)[k] is None);
        assert(attempts.skip(1)[i - 1] == attempts[i]);
        lemma_first_success_at(attempts.skip(1), i - 1, c);
    }
}

/// With every attempt failed, there is no first success.
proof fn lemma_no_success(attempts: Seq<Option<u64>>)
    requires
        forall|k: int| 0 <= k < attempts.len() ==> attempts[k] is None,
    ensures
        first_success(attempts) is None,
    decreases attempts.len(),
{
    if attempts.len() > 0 {
        assert(forall|k: int| 0 <= k < attempts.skip(1).len() ==> attempts.skip(1)[k] is None);
        lemma_no_success(attempts.skip(1));
    }
}

/// Drive construction attempts until one succeeds: every failed attempt is
/// absorbed and retried, never surfaced to the consumer; the connection of
/// the first successful attempt becomes the one continuous endpoint. With no
/// success among `attempts` there is no endpoint yet — and still no error,
/// which is why the result is an `Option` and cannot carry a failure.
pub fn drive_reconnect(attempts: &Vec<Option<u64>>) -> (r: Option<u64>)
    ensures
        r is Some <==> first_success(attempts@) is Some,
        r matches Some(c) ==> first_success(attempts@) matches Some(p) && p.1 == c,
{
    let mut i: usize = 0;
    while i < attempts.len()
        invariant
            i <= attempts@.len(),
            forall|k: int| 0 <= k < i ==> attempts@[k] is None,
        decreases attempts@.len() - i,
    {
        if let Some(c) = attempts[i] {
            proof {
                lemma_first_success_at(attempts@, i as int, c);
            }
            return Some(c);
        }
        i = i + 1;
    }
    proof {
        lemma_no_success(attempts@);
    }
    None
}

/// The reconnect guarantee: if construction fails any number of times before
/// finally succeeding with connection `c`, the consumer observes zero
/// failures and exactly the single continuous connection `c` of the first
/// success, whatever happens on attempts after it.
pub proof fn lemma_reconnect_hides_failures(
    failures: Seq<Option<u64>>,
    c: u64,
    later: Seq<Option<u64>>,
)
    requires
        forall|k: int| 0 <= k < failures.len() ==> failures[k] is None,
    ensures
        first_success(failures.add(seq![Some(c)]).add(later)) == Some((failures.len() as int, c)),
{
    let all = failures.add(seq![Some(c)]).add(later);
    assert(forall|k: int| 0 <= k < failures.len() ==> all[k] is None);
    assert(all[failures.len() as int] == Some(c));
    lemma_first_success_at(all, failures.len() as int, c);
}

} // verus!
