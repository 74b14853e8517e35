//! The operations a transport performs on the controller's lines and bus.
use vstd::prelude::*;

verus! {

/// One step of a transaction with the controller.
#[derive(Clone, Debug, PartialEq, Eq)]
pub enum Op {
    /// Drive chip-select low (device selected).
    CsLow,
    /// Drive chip-select high (device deselected).
    CsHigh,
    /// Drive data/command select low (command phase).
    DcLow,
    /// Drive data/command select high (data phase).
    DcHigh,
    /// Drive the reset line low.
    RstLow,
    /// Drive the reset line high.
    RstHigh,
    /// One blocking bus write of the given bytes.
    Write(Vec<u8>),
    /// Block for the given number of milliseconds.
    DelayMs(u16),
}

/// Mathematical form of an [`Op`].
pub enum OpView {
    CsLow,
    CsHigh,
    DcLow,
    DcHigh,
    RstLow,
    RstHigh,
    Write(Seq<u8>),
    DelayMs(u16),
}

impl View for Op {
    type V = OpView;

    open spec fn view(&self) -> OpView {
        match self {
            Op::CsLow => OpView::CsLow,
            Op::CsHigh => OpView::CsHigh,
            Op::DcLow => OpView::DcLow,
            Op::DcHigh => OpView::DcHigh,
            Op::RstLow => OpView::RstLow,
            Op::RstHigh => OpView::RstHigh,
            Op::Write(b) => OpView::Write(b@),
            Op::DelayMs(ms) => OpView::DelayMs(*ms),
        }
    }
}

/// The mathematical form of a list of operations.
pub open spec fn ops_view(ops: Seq<Op>) -> Seq<OpView> {
    ops.map_values(|o: Op| o@)
}

/// Appends one operation to `out`.
pub fn emit(out: &mut Vec<Op>, op: Op)
    ensures
        ops_view(final(out)@) == ops_view(old(out)@).push(op@),
{
    let ghost v = op@;
    out.push(op);
    assert(ops_view(out@) =~= ops_view(old(out)@).push(v));
}

/// The chip-select step `s` when a dedicated select line exists, nothing otherwise.
pub open spec fn cs_step(has_cs: bool, s: OpView) -> Seq<OpView> {
    if has_cs {
        seq![s]
    } else {
        seq![]
    }
}

/// Appends `op` when a dedicated select line exists.
pub fn emit_cs(out: &mut Vec<Op>, has_cs: bool, op: Op)
    ensures
        ops_view(final(out)@) == ops_view(old(out)@) + cs_step(has_cs, op@),
{
    let ghost v = op@;
    if has_cs {
        emit(out, op);
    }
    assert(ops_view(out@) =~= ops_view(old(out)@) + cs_step(has_cs, v));
}

/// Appends the bytes `b[lo..hi]` to `out`.
pub fn append_range(out: &mut Vec<u8>, b: &[u8], lo: usize, hi: usize)
    requires
        lo <= hi <= b@.len(),
    ensures
        final(out)@ == old(out)@ + b@.subrange(lo as int, hi as int),
{
    let mut i: usize = lo;
    while i < hi
        invariant
            lo <= i <= hi <= b@.len(),
            out@ == old(out)@ + b@.subrange(lo as int, i as int),
        decreases hi - i,
    {
        out.push(b[i]);
        assert(b@.subrange(lo as int, i + 1) =~= b@.subrange(lo as int, i as int).push(b@[i as int]));
        i = i + 1;
    }
}

} // verus!
