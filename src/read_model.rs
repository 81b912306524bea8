use vstd::prelude::*;
use crate::object_reader::{ReaderView, initial_view, served, after_serve, after_refill};

verus! {

/// What fetching one chunk of `chunk_size` bytes at `cursor` returns from an
/// object holding `obj`: the part of the range that lies inside the object.
pub open spec fn fetched(obj: Seq<u8>, cursor: nat, chunk_size: nat) -> Seq<u8> {
    if cursor < obj.len() {
        let end = if cursor + chunk_size < obj.len() {
            cursor + chunk_size
        } else {
            obj.len() as nat
        };
        obj.subrange(cursor as int, end as int)
    } else {
        Seq::empty()
    }
}

/// Bytes of the object that lie at or after the cursor.
pub open spec fn unfetched(obj: Seq<u8>, v: ReaderView) -> nat {
    if v.cursor < obj.len() {
        (obj.len() - v.cursor) as nat
    } else {
        0
    }
}

/// One blocking read of up to `k` bytes from a reader over `obj`: serve from
/// the buffer, and refill from the object while bytes are still wanted and the
/// object is not exhausted. Gives the state after the read and the bytes
/// delivered.
pub open spec fn read_model(obj: Seq<u8>, v: ReaderView, k: nat) -> (ReaderView, Seq<u8>)
    decreases k, unfetched(obj, v), if v.exhausted { 0nat } else { 1nat },
{
    let n = served(v, k);
    let v1 = after_serve(v, k);
    let out = v.pending.take(n as int);
    if n == k || v.exhausted || v.chunk_size == 0 {
        (v1, out)
    } else {
        let v2 = after_refill(v1, fetched(obj, v1.cursor, v1.chunk_size));
        let (v3, rest) = read_model(obj, v2, (k - n) as nat);
        (v3, out + rest)
    }
}

/// Reads of the lengths in `ks`, one after the other: the state after the last
/// one and everything delivered, in order.
pub open spec fn read_sequence(obj: Seq<u8>, v: ReaderView, ks: Seq<nat>) -> (ReaderView, Seq<u8>)
    decreases ks.len(),
{
    if ks.len() == 0 {
        (v, Seq::empty())
    } else {
        let (v1, first) = read_model(obj, v, ks[0]);
        let (v2, rest) = read_sequence(obj, v1, ks.skip(1));
        (v2, first + rest)
    }
}

/// The sum of the requested lengths.
pub open spec fn total(ks: Seq<nat>) -> nat
    decreases ks.len(),
{
    if ks.len() == 0 {
        0
    } else {
        ks[0] + total(ks.skip(1))
    }
}

/// `v` is a state that a reader over `obj` reaches after delivering
/// `delivered`: what was delivered and what is buffered are the object's bytes
/// up to the cursor, and the object is exhausted only at its end.
pub open spec fn consistent(obj: Seq<u8>, delivered: Seq<u8>, v: ReaderView) -> bool {
    &&& v.chunk_size > 0
    &&& v.cursor <= obj.len()
    &&& delivered + v.pending == obj.take(v.cursor as int)
    &&& v.exhausted ==> v.cursor == obj.len()
}

/// A read keeps a reader consistent with its object, and delivers all it was
/// asked for unless it reaches the end of the object.
proof fn lemma_read_model(obj: Seq<u8>, d: Seq<u8>, v: ReaderView, k: nat)
    requires
        consistent(obj, d, v),
    ensures
        consistent(obj, d + read_model(obj, v, k).1, read_model(obj, v, k).0),
        read_model(obj, v, k).1.len() <= k,
        read_model(obj, v, k).1.len() == k || (d + read_model(obj, v, k).1 == obj
            && read_model(obj, v, k).0.pending.len() == 0),
    decreases k, unfetched(obj, v), if v.exhausted { 0nat } else { 1nat },
{
    let n = served(v, k);
    let v1 = after_serve(v, k);
    let out = v.pending.take(n as int);
    assert(d + out + v1.pending =~= d + v.pending);
    if n == k || v.exhausted {
        if n < k {
            assert(d + out =~= obj);
        }
    } else {
        let chunk = fetched(obj, v1.cursor, v1.chunk_size);
        let v2 = after_refill(v1, chunk);
        assert(d + out =~= obj.take(v.cursor as int));
        assert((d + out) + chunk =~= obj.take(v2.cursor as int));
        lemma_read_model(obj, d + out, v2, (k - n) as nat);
        let rest = read_model(obj, v2, (k - n) as nat).1;
        assert(d + out + rest =~= d + (out + rest));
    }
}

/// Once everything has been delivered, reads deliver nothing; and once the
/// object is exhausted, a read changes nothing, so no fetch is made.
pub proof fn lemma_end_of_stream(obj: Seq<u8>, v: ReaderView, k: nat)
    requires
        consistent(obj, obj, v),
    ensures
        read_model(obj, v, k).1.len() == 0,
        consistent(obj, obj, read_model(obj, v, k).0),
        v.exhausted ==> read_model(obj, v, k).0 == v,
{
    lemma_read_model(obj, obj, v, k);
    let out = read_model(obj, v, k).1;
    let v1 = read_model(obj, v, k).0;
    assert(obj.take(v1.cursor as int).len() == v1.cursor);
    assert(((obj + out) + v1.pending).len() == v1.cursor);
    assert(obj.take(v.cursor as int).len() == v.cursor);
    assert((obj + v.pending).len() == v.cursor);
    if v.exhausted {
        assert(v.pending.skip(0) =~= v.pending);
    }
}

/// A read of `k` bytes that spans the buffered bytes and one refill delivers
/// the buffered bytes followed by the start of the fetched chunk, and moves the
/// cursor by the length of that chunk, not by `k`.
pub proof fn lemma_straddling_read(obj: Seq<u8>, d: Seq<u8>, v: ReaderView, k: nat)
    requires
        consistent(obj, d, v),
        !v.exhausted,
        v.pending.len() < k <= v.pending.len() + v.chunk_size,
    ensures
        ({
            let chunk = fetched(obj, v.cursor, v.chunk_size);
            let wanted = (k - v.pending.len()) as nat;
            let taken = if wanted < chunk.len() { wanted } else { chunk.len() };
            &&& read_model(obj, v, k).1 == v.pending + chunk.take(taken as int)
            &&& read_model(obj, v, k).0.cursor == v.cursor + chunk.len()
        }),
{
    let chunk = fetched(obj, v.cursor, v.chunk_size);
    let v1 = after_serve(v, k);
    assert(v.pending.take(v.pending.len() as int) =~= v.pending);
    let v2 = after_refill(v1, chunk);
    let wanted = (k - v.pending.len()) as nat;
    assert(read_model(obj, v, k) == (read_model(obj, v2, wanted).0, v.pending + read_model(obj, v2, wanted).1));
}

/// Reads whose lengths add up to at least what is left of the object deliver
/// exactly the rest of it.
proof fn lemma_read_sequence(obj: Seq<u8>, d: Seq<u8>, v: ReaderView, ks: Seq<nat>)
    requires
        consistent(obj, d, v),
        d.len() + total(ks) >= obj.len(),
    ensures
        d + read_sequence(obj, v, ks).1 == obj,
        consistent(obj, obj, read_sequence(obj, v, ks).0),
    decreases ks.len(),
{
    if ks.len() == 0 {
        assert((d + v.pending).len() == v.cursor);
        assert(d =~= obj);
        assert(d + Seq::<u8>::empty() =~= d);
    } else {
        lemma_read_model(obj, d, v, ks[0]);
        let (v1, first) = read_model(obj, v, ks[0]);
        assert((d + first + v1.pending).len() == v1.cursor);
        lemma_read_sequence(obj, d + first, v1, ks.skip(1));
        let rest = read_sequence(obj, v1, ks.skip(1)).1;
        assert(d + first + rest =~= d + (first + rest));
    }
}

/// Exact reconstruction: on a fresh reader over an object, any reads whose
/// lengths add up to at least the object's length deliver, in order, exactly
/// the object's bytes, and every read after them delivers nothing.
pub proof fn lemma_exact_reconstruction(obj: Seq<u8>, chunk_size: nat, ks: Seq<nat>, k: nat)
    requires
        chunk_size > 0,
        total(ks) >= obj.len(),
    ensures
        read_sequence(obj, initial_view(chunk_size), ks).1 == obj,
        read_model(obj, read_sequence(obj, initial_view(chunk_size), ks).0, k).1.len() == 0,
{
    let v = initial_view(chunk_size);
    assert(Seq::<u8>::empty() + v.pending =~= obj.take(0));
    lemma_read_sequence(obj, Seq::empty(), v, ks);
    assert(Seq::<u8>::empty() + read_sequence(obj, v, ks).1 =~= read_sequence(obj, v, ks).1);
    lemma_end_of_stream(obj, read_sequence(obj, v, ks).0, k);
}

} // verus!
