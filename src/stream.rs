//! Serialization of pixel colors into wire bytes, row reordering and chunking.
use vstd::prelude::*;
use crate::bus::{emit, append_range, ops_view, Op, OpView};
use crate::geometry::{hi, lo, split_u16};

verus! {

/// Largest number of bytes that one bus write of pixel data carries.
pub const CHUNK_SIZE: usize = 4096;

/// The colors serialized as 16-bit words, high byte first, in order.
pub open spec fn be_bytes(colors: Seq<u16>) -> Seq<u8>
    decreases colors.len(),
{
    if colors.len() == 0 {
        seq![]
    } else {
        be_bytes(colors.drop_last()) + seq![hi(colors.last()), lo(colors.last())]
    }
}

/// `b` cut into consecutive pieces of `n` bytes; the last piece may be shorter.
pub open spec fn chunks(b: Seq<u8>, n: nat) -> Seq<Seq<u8>>
    decreases b.len(),
{
    if b.len() == 0 || n == 0 {
        seq![]
    } else if b.len() <= n {
        seq![b]
    } else {
        seq![b.take(n as int)] + chunks(b.skip(n as int), n)
    }
}

/// `b` with its rows of `n` bytes in reverse order (the last, possibly shorter, row first);
/// the bytes within each row keep their order.
pub open spec fn rows_reversed(b: Seq<u8>, n: nat) -> Seq<u8>
    decreases b.len(),
{
    if n == 0 || b.len() <= n {
        b
    } else {
        rows_reversed(b.skip(n as int), n) + b.take(n as int)
    }
}

/// One bus write per piece, in order.
pub open spec fn writes(pieces: Seq<Seq<u8>>) -> Seq<OpView> {
    pieces.map_values(|p: Seq<u8>| OpView::Write(p))
}

/// Serializes `colors`, two bytes per color, high byte first.
pub fn encode_colors(colors: &[u16]) -> (r: Vec<u8>)
    requires
        colors@.len() * 2 <= usize::MAX,
    ensures
        r@ == be_bytes(colors@),
{
    let mut out: Vec<u8> = Vec::new();
    let mut i: usize = 0;
    while i < colors.len()
        invariant
            i <= colors@.len(),
            out@ == be_bytes(colors@.take(i as int)),
        decreases colors@.len() - i,
    {
        let (h, l) = split_u16(colors[i]);
        out.push(h);
        out.push(l);
        assert(colors@.take(i + 1).drop_last() =~= colors@.take(i as int));
        assert(out@ =~= be_bytes(colors@.take(i + 1)));
        i = i + 1;
    }
    assert(colors@.take(colors@.len() as int) =~= colors@);
    out
}

/// Reorders `b` so that its rows of `n` bytes come last row first.
pub fn reverse_rows(b: &Vec<u8>, n: usize) -> (r: Vec<u8>)
    requires
        n > 0,
    ensures
        r@ == rows_reversed(b@, n as nat),
{
    let len = b.len();
    let mut starts: Vec<usize> = vec![0];
    let mut s: usize = 0;
    while len - s > n
        invariant
            n > 0,
            s <= len == b@.len(),
            starts@.len() >= 1,
            starts@[0] == 0,
            starts@.last() == s,
            forall|i: int| 0 <= i < starts@.len() - 1 ==> #[trigger] starts@[i] + n < len && starts@[i
                + 1] == starts@[i] + n,
        decreases len - s,
    {
        s = s + n;
        starts.push(s);
    }
    let mut j: usize = starts.len() - 1;
    let mut out: Vec<u8> = Vec::new();
    append_range(&mut out, b.as_slice(), starts[j], len);
    assert(b@.subrange(s as int, len as int) =~= b@.skip(s as int));
    while j > 0
        invariant
            j < starts@.len(),
            len == b@.len(),
            starts@[j as int] <= len,
            starts@[0] == 0,
            forall|i: int| 0 <= i < starts@.len() - 1 ==> #[trigger] starts@[i] + n < len && starts@[i
                + 1] == starts@[i] + n,
            out@ == rows_reversed(b@.skip(starts@[j as int] as int), n as nat),
        decreases j,
    {
        j = j - 1;
        let st = starts[j];
        let ghost rest = b@.skip(st as int);
        assert(rest.skip(n as int) =~= b@.skip(st + n));
        assert(rest.take(n as int) =~= b@.subrange(st as int, st + n));
        append_range(&mut out, b.as_slice(), st, st + n);
    }
    assert(b@.skip(0) =~= b@);
    out
}

/// Appends one bus write for each `n`-byte piece of `b`, in order.
pub fn emit_chunks(out: &mut Vec<Op>, b: &Vec<u8>, n: usize)
    requires
        n > 0,
    ensures
        ops_view(final(out)@) == ops_view(old(out)@) + writes(chunks(b@, n as nat)),
{
    let len = b.len();
    let mut off: usize = 0;
    assert(b@.skip(0) =~= b@);
    while off < len
        invariant
            off <= len == b@.len(),
            n > 0,
            ops_view(out@) + writes(chunks(b@.skip(off as int), n as nat)) == ops_view(old(out)@)
                + writes(chunks(b@, n as nat)),
        decreases len - off,
    {
        let ghost rest = b@.skip(off as int);
        let m: usize = if len - off > n { n } else { len - off };
        let mut piece: Vec<u8> = Vec::new();
        append_range(&mut piece, b.as_slice(), off, off + m);
        let ghost before = ops_view(out@);
        let ghost p = piece@;
        emit(out, Op::Write(piece));
        if len - off > n {
            assert(rest.take(n as int) =~= p);
            assert(rest.skip(n as int) =~= b@.skip(off + m));
            assert(chunks(rest, n as nat) == seq![p] + chunks(b@.skip(off + m), n as nat));
        } else {
            assert(rest =~= p);
            assert(b@.skip(off + m).len() == 0);
            assert(chunks(rest, n as nat) == seq![p]);
            assert(chunks(b@.skip(off + m), n as nat) == Seq::<Seq<u8>>::empty());
        }
        assert(writes(chunks(rest, n as nat)) =~= seq![OpView::Write(p)] + writes(
            chunks(b@.skip(off + m), n as nat),
        ));
        assert(ops_view(out@) + writes(chunks(b@.skip(off + m), n as nat)) =~= before + writes(
            chunks(rest, n as nat),
        ));
        off = off + m;
    }
    assert(chunks(b@.skip(len as int), n as nat) == Seq::<Seq<u8>>::empty());
    assert(ops_view(out@) =~= ops_view(out@) + writes(Seq::<Seq<u8>>::empty()));
}

/// Serializing `N` colors gives `2N` bytes.
pub proof fn lemma_be_bytes_len(colors: Seq<u16>)
    ensures
        be_bytes(colors).len() == 2 * colors.len(),
    decreases colors.len(),
{
    if colors.len() > 0 {
        lemma_be_bytes_len(colors.drop_last());
    }
}

/// Color `i` lands at bytes `2i` (high byte) and `2i + 1` (low byte).
pub proof fn lemma_be_bytes_index(colors: Seq<u16>)
    ensures
        forall|i: int|
            0 <= i < colors.len() ==> #[trigger] be_bytes(colors)[2 * i] == hi(colors[i])
                && be_bytes(colors)[2 * i + 1] == lo(colors[i]),
    decreases colors.len(),
{
    if colors.len() > 0 {
        let init = colors.drop_last();
        lemma_be_bytes_index(init);
        lemma_be_bytes_len(init);
        assert forall|i: int| 0 <= i < colors.len() implies #[trigger] be_bytes(colors)[2 * i] == hi(
            colors[i],
        ) && be_bytes(colors)[2 * i + 1] == lo(colors[i]) by {
            if i < init.len() {
                assert(colors[i] == init[i]);
            }
        }
    }
}

/// Reordering rows keeps the number of bytes.
pub proof fn lemma_rows_reversed_len(b: Seq<u8>, n: nat)
    ensures
        rows_reversed(b, n).len() == b.len(),
    decreases b.len(),
{
    if n > 0 && b.len() > n {
        lemma_rows_reversed_len(b.skip(n as int), n);
    }
}

/// Cutting `b` into `n`-byte pieces gives `ceil(|b| / n)` pieces of 1 to `n` bytes each,
/// whose concatenation is `b`.
pub proof fn lemma_chunks(b: Seq<u8>, n: nat)
    requires
        n > 0,
    ensures
        chunks(b, n).flatten() == b,
        chunks(b, n).len() == (b.len() + n - 1) / n as int,
        forall|i: int| 0 <= i < chunks(b, n).len() ==> 0 < #[trigger] chunks(b, n)[i].len() <= n,
    decreases b.len(),
{
    let len = b.len() as int;
    let k = n as int;
    if len == 0 {
        assert((len + k - 1) / k == 0) by (nonlinear_arith)
            requires len == 0, k > 0;
    } else if len <= k {
        seq![b].lemma_flatten_singleton();
        assert((len + k - 1) / k == 1) by (nonlinear_arith)
            requires 0 < len <= k;
    } else {
        let rest = b.skip(k);
        lemma_chunks(rest, n);
        let cs = chunks(b, n);
        assert(cs.drop_first() =~= chunks(rest, n));
        assert(cs.flatten() == b.take(k) + rest);
        assert(b.take(k) + rest =~= b);
        assert((len + k - 1) / k == 1 + (len - k + k - 1) / k) by (nonlinear_arith)
            requires len > k, k > 0;
        assert forall|i: int| 0 <= i < cs.len() implies 0 < #[trigger] cs[i].len() <= n by {
            if i > 0 {
                assert(cs[i] == chunks(rest, n)[i - 1]);
            }
        }
    }
}

} // verus!
