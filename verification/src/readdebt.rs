//! The message/stream boundary adapter.
//!
//! Message-oriented sources deliver one message per read call; stream
//! consumers ask for arbitrary-sized chunks, so one message may have to be
//! split over several reads. The undelivered remainder of the most recent
//! message is the adapter's *debt*. Every read first drains debt; only once
//! the debt is empty is the next message pulled.

use vstd::prelude::*;

use crate::WebsocatError;

verus! {

/// What to do when a new message arrives while debt from the previous one is
/// still outstanding: ignore it, note it and continue, or fail the connection.
#[derive(Clone, Copy, Debug, PartialEq, Eq, Structural)]
pub enum DebtHandling {
    Silent,
    Warn,
    Error,
}

/// How many bytes of `len` one read of capacity `cap` takes.
pub open spec fn take_len(len: int, cap: int) -> int {
    if len <= cap {
        len
    } else {
        cap
    }
}

/// The reads that repeatedly draining `m` with capacity `cap` produces:
/// the successive contiguous pieces of `m`, each of length `cap` except
/// possibly the last.
pub open spec fn chunks_of(m: Seq<u8>, cap: int) -> Seq<Seq<u8>>
    recommends
        cap >= 1,
    decreases m.len() when cap >= 1
{
    if m.len() == 0 {
        Seq::empty()
    } else {
        seq![m.take(take_len(m.len() as int, cap))].add(
            chunks_of(m.skip(take_len(m.len() as int, cap)), cap),
        )
    }
}

/// Exact delivery: draining a message of any size M with any read capacity
/// C >= 1 hands back precisely the original bytes, in order, split into
/// ceil(M/C) reads.
pub proof fn lemma_message_exact_delivery(m: Seq<u8>, cap: int)
    requires
        cap >= 1,
    ensures
        chunks_of(m, cap).flatten() == m,
        chunks_of(m, cap).len() == (m.len() + cap - 1) / cap,
    decreases m.len(),
{
    if m.len() == 0 {
        assert(chunks_of(m, cap).flatten() =~= m);
        assert((cap - 1) / cap == 0) by (nonlinear_arith)
            requires
                cap >= 1,
        ;
    } else {
        let t: int = take_len(m.len() as int, cap);
        let rest = m.skip(t);
        lemma_message_exact_delivery(rest, cap);
        let cs = chunks_of(m, cap);
        assert(cs == seq![m.take(t)].add(chunks_of(rest, cap)));
        assert(cs.first() == m.take(t));
        assert(cs.drop_first() =~= chunks_of(rest, cap));
        assert(cs.flatten() == m.take(t).add(chunks_of(rest, cap).flatten()));
        assert(cs.flatten() =~= m.take(t).add(rest));
        assert(m.take(t).add(rest) =~= m);
        assert(cs.len() == 1 + (rest.len() + cap - 1) / cap);
        assert(rest.len() == m.len() - t);
        assert(1 + (m.len() - t + cap - 1) / cap == (m.len() + cap - 1) / cap) by (nonlinear_arith)
            requires
                cap >= 1,
                m.len() >= 1,
                (m.len() <= cap ==> t == m.len()) && (m.len() > cap ==> t == cap),
        ;
    }
}

/// No interleaving: the i-th read taken from a message `m` is exactly the
/// contiguous slice of `m` from `i*cap` to `min((i+1)*cap, |m|)`; no read
/// ever mixes bytes of two different messages.
pub proof fn lemma_reads_never_interleave(m: Seq<u8>, cap: int, i: int)
    requires
        cap >= 1,
        0 <= i < chunks_of(m, cap).len(),
    ensures
        chunks_of(m, cap)[i] == m.subrange(i * cap, take_len(m.len() as int, (i + 1) * cap)),
    decreases m.len(),
{
    let t: int = take_len(m.len() as int, cap);
    if i == 0 {
        assert(chunks_of(m, cap)[0] == m.take(t));
        assert(m.take(t) =~= m.subrange(0, take_len(m.len() as int, cap)));
    } else {
        let rest = m.skip(t);
        if m.len() <= cap {
            assert(rest.len() == 0);
            assert(chunks_of(rest, cap) =~= Seq::<Seq<u8>>::empty());
            assert(chunks_of(m, cap).len() == 1);
        }
        assert(m.len() > cap);
        assert(t == cap);
        assert(chunks_of(m, cap)[i] == chunks_of(rest, cap)[i - 1]);
        lemma_reads_never_interleave(rest, cap, i - 1);
        let lo: int = (i - 1) * cap;
        let hi: int = take_len(rest.len() as int, i * cap);
        lemma_message_exact_delivery(rest, cap);
        assert(0 <= i - 1 < (rest.len() + cap - 1) / cap);
        assert((i - 1) * cap < rest.len()) by (nonlinear_arith)
            requires
                cap >= 1,
                0 <= i - 1 < (rest.len() + cap - 1) / cap,
        ;
        assert(chunks_of(rest, cap)[i - 1] == rest.subrange(lo, hi));
        assert((i - 1) * cap + cap == i * cap) by (nonlinear_arith);
        assert(i * cap + cap == (i + 1) * cap) by (nonlinear_arith);
        assert(0 <= lo && lo <= hi && hi <= rest.len());
        assert(rest.subrange(lo, hi) =~= m.subrange(lo + cap, hi + cap));
        assert(hi + cap == take_len(m.len() as int, (i + 1) * cap));
    }
}

/// The message/stream read adapter: leftover bytes of the most recent
/// message, the configured violation policy, and whether the strict policy
/// has already failed the connection.
#[derive(Debug)]
pub struct ReadDebt {
    pub debt: Vec<u8>,
    pub handling: DebtHandling,
    pub failed: bool,
}

impl ReadDebt {
    /// A healthy state with nothing owed.
    pub open spec fn well_formed(self) -> bool {
        !self.failed
    }

    pub fn new(handling: DebtHandling) -> (r: ReadDebt)
        ensures
            r.debt@ == Seq::<u8>::empty(),
            r.handling == handling,
            !r.failed,
    {
        ReadDebt { debt: Vec::new(), handling, failed: false }
    }

    /// One read request of capacity `cap` served from stored debt alone:
    /// `None` when no debt is stored (the caller may then pull the next
    /// message); otherwise the first `min(cap, |debt|)` owed bytes, the rest
    /// staying owed.
    pub fn check_debt(&mut self, cap: usize) -> (r: Option<Vec<u8>>)
        requires
            cap >= 1,
        ensures
            final(self).handling == old(self).handling,
            final(self).failed == old(self).failed,
            old(self).debt@.len() == 0 ==> r is None && final(self).debt@ == old(self).debt@,
            old(self).debt@.len() > 0 ==> {
                &&& r matches Some(out)
                &&& out@ == old(self).debt@.take(take_len(old(self).debt@.len() as int, cap as int))
                &&& final(self).debt@ == old(self).debt@.skip(
                    take_len(old(self).debt@.len() as int, cap as int),
                )
            },
    {
        if self.debt.len() == 0 {
            return None;
        }
        let t: usize = if self.debt.len() <= cap {
            self.debt.len()
        } else {
            cap
        };
        let mut out: Vec<u8> = Vec::new();
        let mut rest: Vec<u8> = Vec::new();
        let mut i: usize = 0;
        while i < t
            invariant
                i <= t,
                t <= self.debt.len(),
                out@ == self.debt@.take(i as int),
            decreases t - i,
        {
            out.push(self.debt[i]);
            i = i + 1;
        }
        let mut j: usize = t;
        while j < self.debt.len()
            invariant
                t <= j <= self.debt.len(),
                rest@ == self.debt@.subrange(t as int, j as int),
            decreases self.debt.len() - j,
        {
            rest.push(self.debt[j]);
            j = j + 1;
        }
        proof {
            assert(rest@ =~= self.debt@.skip(t as int));
        }
        self.debt = rest;
        Some(out)
    }

    /// A new message `msg` arrives while a read of capacity `cap` is wanted.
    ///
    /// If debt is still outstanding, the configured policy decides: under
    /// `Error` the connection fails with a framing violation and delivers
    /// nothing, now and on every later call; under `Silent` and `Warn` the
    /// stale remainder is discarded and delivery continues, uncorrupted, with
    /// the new message. The first `min(cap, |msg|)` bytes of `msg` are
    /// delivered and the remainder becomes the new debt.
    pub fn process_message(&mut self, cap: usize, msg: &Vec<u8>) -> (r: Result<
        Vec<u8>,
        WebsocatError,
    >)
        requires
            cap >= 1,
        ensures
            final(self).handling == old(self).handling,
            old(self).failed ==> {
                &&& r == Result::<Vec<u8>, WebsocatError>::Err(WebsocatError::FramingViolation)
                &&& *final(self) == *old(self)
            },
            !old(self).failed && old(self).debt@.len() > 0 && old(self).handling
                == DebtHandling::Error ==> {
                &&& r == Result::<Vec<u8>, WebsocatError>::Err(WebsocatError::FramingViolation)
                &&& final(self).failed
                &&& final(self).debt@.len() == 0
            },
            !old(self).failed && (old(self).debt@.len() == 0 || old(self).handling
                != DebtHandling::Error) ==> {
                &&& r matches Ok(out)
                &&& out@ == msg@.take(take_len(msg@.len() as int, cap as int))
                &&& final(self).debt@ == msg@.skip(take_len(msg@.len() as int, cap as int))
                &&& !final(self).failed
            },
    {
        if self.failed {
            return Err(WebsocatError::FramingViolation);
        }
        if self.debt.len() > 0 && matches!(self.handling, DebtHandling::Error) {
            self.failed = true;
            self.debt = Vec::new();
            return Err(WebsocatError::FramingViolation);
        }
        let t: usize = if msg.len() <= cap {
            msg.len()
        } else {
            cap
        };
        let mut out: Vec<u8> = Vec::new();
        let mut rest: Vec<u8> = Vec::new();
        let mut i: usize = 0;
        while i < t
            invariant
                i <= t,
                t <= msg.len(),
                out@ == msg@.take(i as int),
            decreases t - i,
        {
            out.push(msg[i]);
            i = i + 1;
        }
        let mut j: usize = t;
        while j < msg.len()
            invariant
                t <= j <= msg.len(),
                rest@ == msg@.subrange(t as int, j as int),
            decreases msg.len() - j,
        {
            rest.push(msg[j]);
            j = j + 1;
        }
        proof {
            assert(rest@ =~= msg@.skip(t as int));
        }
        self.debt = rest;
        Ok(out)
    }
}

} // verus!
