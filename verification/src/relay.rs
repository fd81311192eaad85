//! Byte-exact relay from the transport connection to the local output sink.
//! The controller forwards every received chunk verbatim: the sink ends up
//! holding exactly the bytes the payload wrote, in arrival order, with no
//! insertion, loss or reordering.

use vstd::prelude::*;

verus! {

/// The bytes the output sink holds after relaying a sequence of received
/// chunks: their concatenation, in arrival order.
pub open spec fn relayed_bytes(chunks: Seq<Seq<u8>>) -> Seq<u8> {
    chunks.flatten_alt()
}

/// Forward one received chunk to the output sink: append the first `n` bytes
/// of the read buffer, exactly and in order, changing nothing else.
pub fn forward_chunk(sink: &mut Vec<u8>, buf: &Vec<u8>, n: usize)
    requires
        n <= buf@.len(),
    ensures
        final(sink)@ == old(sink)@ + buf@.subrange(0, n as int),
{
    let mut i: usize = 0;
    assert(sink@ =~= old(sink)@ + buf@.subrange(0, 0));
    while i < n
        invariant
            i <= n,
            n <= buf@.len(),
            sink@ == old(sink)@ + buf@.subrange(0, i as int),
        decreases n - i,
    {
        sink.push(buf[i]);
        assert(old(sink)@ + buf@.subrange(0, i + 1) =~= (old(sink)@ + buf@.subrange(
            0,
            i as int,
        )).push(buf@[i as int]));
        i = i + 1;
    }
}

/// Relay a whole run of received chunks: the returned sink holds exactly
/// their bytes, in arrival order.
pub fn relay_all(chunks: &Vec<Vec<u8>>) -> (sink: Vec<u8>)
    ensures
        sink@ == relayed_bytes(chunks.deep_view()),
{
    let ghost dv = chunks.deep_view();
    let mut sink: Vec<u8> = Vec::new();
    let mut k: usize = 0;
    assert(dv.take(0) =~= Seq::<Seq<u8>>::empty());
    while k < chunks.len()
        invariant
            k <= chunks.len(),
            dv == chunks.deep_view(),
            dv.len() == chunks@.len(),
            forall|j: int| 0 <= j < dv.len() ==> dv[j] == chunks@[j]@,
            sink@ == relayed_bytes(dv.take(k as int)),
        decreases chunks.len() - k,
    {
        let chunk = &chunks[k];
        let n = chunk.len();
        forward_chunk(&mut sink, chunk, n);
        proof {
            assert(chunk@.subrange(0, n as int) =~= dv[k as int]);
            assert(dv.take(k + 1).drop_last() =~= dv.take(k as int));
            assert(dv.take(k + 1).last() == dv[k as int]);
        }
        k = k + 1;
    }
    assert(dv.take(chunks@.len() as int) =~= dv);
    sink
}

/// Relaying one more chunk appends exactly that chunk to the sink: arrival
/// order is preserved and nothing else changes.
pub proof fn lemma_relay_preserves_order(chunks: Seq<Seq<u8>>, c: Seq<u8>)
    ensures
        relayed_bytes(chunks.push(c)) == relayed_bytes(chunks) + c,
{
    assert(chunks.push(c).drop_last() =~= chunks);
    assert(chunks.push(c).last() == c);
}

/// Byte-exact relay: the sink's contents are exactly the flattening of the
/// chunk sequence the payload wrote — no insertion, loss or reordering.
pub proof fn lemma_relay_byte_exact(chunks: Seq<Seq<u8>>)
    ensures
        relayed_bytes(chunks) == chunks.flatten(),
{
    chunks.lemma_flatten_and_flatten_alt_are_equivalent();
}

} // verus!
