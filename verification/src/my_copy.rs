//! The copy step of one transfer: bytes move from the source to the sink
//! strictly in source-read order, through a bounded intermediate buffer, so
//! the data crosses in chunks of the configured buffer size.

use vstd::prelude::*;

use crate::readdebt::{chunks_of, take_len};

verus! {

/// Split `src` into the chunks one copy pass moves: each of `buffer_size`
/// bytes, except possibly the last; concatenated they are exactly `src`, in
/// order.
pub fn copy_chunks(src: &Vec<u8>, buffer_size: usize) -> (r: Vec<Vec<u8>>)
    requires
        buffer_size >= 1,
    ensures
        r@.map_values(|c: Vec<u8>| c@) == chunks_of(src@, buffer_size as int),
{
    let n: usize = src.len();
    let mut out: Vec<Vec<u8>> = Vec::new();
    let mut pos: usize = 0;
    proof {
        assert(src@.skip(0) =~= src@);
        assert(out@.map_values(|c: Vec<u8>| c@) =~= Seq::<Seq<u8>>::empty());
    }
    while pos < n
        invariant
            pos <= n,
            n == src@.len(),
            buffer_size >= 1,
            out@.map_values(|c: Vec<u8>| c@).add(chunks_of(src@.skip(pos as int), buffer_size as int))
                == chunks_of(src@, buffer_size as int),
        decreases n - pos,
    {
        let t: usize = if n - pos <= buffer_size {
            n - pos
        } else {
            buffer_size
        };
        let mut chunk: Vec<u8> = Vec::new();
        let mut j: usize = 0;
        while j < t
            invariant
                j <= t,
                pos + t <= n,
                n == src@.len(),
                chunk@ == src@.subrange(pos as int, pos + j),
            decreases t - j,
        {
            chunk.push(src[pos + j]);
            j = j + 1;
        }
        proof {
            let s = src@.skip(pos as int);
            assert(s.len() == n - pos);
            assert(t == take_len(s.len() as int, buffer_size as int));
            assert(chunk@ =~= s.take(t as int));
            assert(s.skip(t as int) =~= src@.skip(pos + t));
            assert(chunks_of(s, buffer_size as int) == seq![s.take(t as int)].add(
                chunks_of(src@.skip(pos + t), buffer_size as int),
            ));
        }
        let ghost before = out@.map_values(|c: Vec<u8>| c@);
        out.push(chunk);
        proof {
            let s = src@.skip(pos as int);
            assert(out@.map_values(|c: Vec<u8>| c@) =~= before.push(s.take(t as int)));
            assert(before.push(s.take(t as int)).add(
                chunks_of(src@.skip(pos + t), buffer_size as int),
            ) =~= before.add(chunks_of(s, buffer_size as int)));
        }
        pos = pos + t;
    }
    proof {
        assert(src@.skip(pos as int).len() == 0);
        assert(chunks_of(src@.skip(pos as int), buffer_size as int) =~= Seq::<Seq<u8>>::empty());
        assert(out@.map_values(|c: Vec<u8>| c@).add(Seq::<Seq<u8>>::empty()) =~= out@.map_values(
            |c: Vec<u8>| c@,
        ));
    }
    out
}

} // verus!
