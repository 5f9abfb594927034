use vstd::prelude::*;

use crate::chain::Chain;
use crate::kernel::{kernel_inv, outputs_spec, reduce_spec, results};
use crate::lane::Lane;
use crate::layout::{BlobData, SoaData};

verus! {

/// One field sequence read by a cursor: record `i` reads `data[start + i * step]`.
/// A step of zero reads the same value for every record (a broadcast constant).
pub struct Stream<'a, L> {
    pub data: &'a [L],
    pub start: usize,
    pub step: usize,
}

impl<'a, L> Stream<'a, L> {
    /// The value this stream gives to record `i`.
    pub open spec fn at(&self, i: int) -> L {
        self.data@[self.start + i * self.step]
    }

    /// The cursor stays inside `data` for records `0..n`.
    pub open spec fn covers(&self, n: int) -> bool {
        n > 0 ==> self.start + (n - 1) * self.step < self.data@.len()
    }
}

/// The records that `streams` give for `n` records: field `j` of record `i` is
/// `streams[j].at(i)`.
pub open spec fn stream_records<'a, L>(streams: Seq<Stream<'a, L>>, n: int) -> Seq<Seq<L>> {
    Seq::new(n as nat, |i: int| Seq::new(streams.len(), |j: int| streams[j].at(i)))
}

/// Reads record `i` through the cursors and moves each cursor by its step,
/// unless `i` is the last record.
fn read_and_advance<'a, L: Lane>(
    streams: &Vec<Stream<'a, L>>,
    cursors: &Vec<usize>,
    i: usize,
    n: usize,
) -> (r: (Vec<L>, Vec<usize>))
    requires
        i < n,
        cursors@.len() == streams@.len(),
        forall|j: int| 0 <= j < streams@.len() ==> (#[trigger] streams@[j]).covers(n as int),
        forall|j: int|
            0 <= j < streams@.len() ==> #[trigger] cursors@[j] == streams@[j].start + i * streams@[j].step,
    ensures
        r.0@ == stream_records(streams@, n as int)[i as int],
        r.1@.len() == streams@.len(),
        i + 1 < n ==> forall|j: int|
            0 <= j < streams@.len() ==> #[trigger] r.1@[j] == streams@[j].start + (i + 1) * streams@[j].step,
{
    let mut rec: Vec<L> = Vec::new();
    let mut next: Vec<usize> = Vec::new();
    let mut j: usize = 0;
    while j < streams.len()
        invariant
            i < n,
            j <= streams@.len(),
            cursors@.len() == streams@.len(),
            forall|t: int| 0 <= t < streams@.len() ==> (#[trigger] streams@[t]).covers(n as int),
            forall|t: int|
                0 <= t < streams@.len() ==> #[trigger] cursors@[t] == streams@[t].start + i * streams@[t].step,
            rec@ =~= stream_records(streams@, n as int)[i as int].subrange(0, j as int),
            next@.len() == j,
            i + 1 < n ==> forall|t: int|
                0 <= t < j ==> #[trigger] next@[t] == streams@[t].start + (i + 1) * streams@[t].step,
        decreases streams@.len() - j,
    {
        let s = &streams[j];
        let c = cursors[j];
        proof {
            assert(s.covers(n as int));
            vstd::arithmetic::mul::lemma_mul_inequality(i as int, (n - 1) as int, s.step as int);
        }
        rec.push(s.data[c]);
        if i + 1 < n {
            proof {
                vstd::arithmetic::mul::lemma_mul_inequality((i + 1) as int, (n - 1) as int, s.step as int);
                vstd::arithmetic::mul::lemma_mul_is_distributive_add_other_way(s.step as int, i as int, 1);
            }
            next.push(c + s.step);
        } else {
            next.push(c);
        }
        j += 1;
    }
    (rec, next)
}

/// Multi-cursor kernel: one cursor per field stream, each advanced by its own
/// step after every record. The number of records is `out.len()`. Evaluates
/// `chain` on each record, accumulates from zero, and writes the running sum
/// to `out[i]`.
pub fn reduce_streams<'a, L: Lane>(streams: &Vec<Stream<'a, L>>, chain: &Chain, out: &mut [L]) -> (r: L)
    requires
        chain.fits(streams@.len() as int),
        forall|j: int| 0 <= j < streams@.len() ==> (#[trigger] streams@[j]).covers(old(out)@.len() as int),
    ensures
        r == reduce_spec(chain, stream_records(streams@, old(out)@.len() as int)),
        final(out)@ == outputs_spec(chain, stream_records(streams@, old(out)@.len() as int)),
{
    let n = out.len();
    let ghost recs = stream_records(streams@, n as int);
    let ghost vals = results(chain, recs);
    let width = streams.len();
    let mut cursors: Vec<usize> = Vec::new();
    let mut j: usize = 0;
    while j < width
        invariant
            width == streams@.len(),
            j <= width,
            cursors@.len() == j,
            forall|t: int| 0 <= t < j ==> #[trigger] cursors@[t] == streams@[t].start + 0 * streams@[t].step,
        decreases width - j,
    {
        cursors.push(streams[j].start);
        j += 1;
    }
    let mut sum = L::zero();
    let mut i: usize = 0;
    assert(vals.subrange(0, 0) =~= Seq::<L>::empty());
    while i < n
        invariant
            n == recs.len(),
            width == streams@.len(),
            chain.fits(width as int),
            forall|t: int| 0 <= t < streams@.len() ==> (#[trigger] streams@[t]).covers(n as int),
            cursors@.len() == width,
            i < n ==> forall|t: int|
                0 <= t < width ==> #[trigger] cursors@[t] == streams@[t].start + i * streams@[t].step,
            recs == stream_records(streams@, n as int),
            vals == results(chain, recs),
            kernel_inv(vals, out@, sum, i as int),
        decreases n - i,
    {
        let (rec, next) = read_and_advance(streams, &cursors, i, n);
        let tmp = chain.eval_at(&rec, 0, width);
        assert(rec@.subrange(0, rec@.len() as int) =~= recs[i as int]);
        let ghost old_out = out@;
        let new_sum = sum.add(tmp);
        out[i] = new_sum;
        proof {
            crate::kernel::lemma_kernel_step(vals, old_out, sum, i as int, new_sum, out@);
        }
        sum = new_sum;
        cursors = next;
        i += 1;
    }
    proof {
        crate::kernel::lemma_kernel_done(vals, out@, sum);
    }
    sum
}

/// One stream per column, each read from its start with step one.
pub fn column_streams<'a, L>(data: &'a SoaData<L>) -> (r: Vec<Stream<'a, L>>)
    ensures
        r@.len() == data.columns@.len(),
        forall|j: int|
            0 <= j < r@.len() ==> (#[trigger] r@[j]).data@ == data.columns@[j]@ && r@[j].start == 0
                && r@[j].step == 1,
{
    let mut r: Vec<Stream<'a, L>> = Vec::new();
    let mut j: usize = 0;
    while j < data.columns.len()
        invariant
            j <= data.columns@.len(),
            r@.len() == j,
            forall|t: int|
                0 <= t < j ==> (#[trigger] r@[t]).data@ == data.columns@[t]@ && r@[t].start == 0
                    && r@[t].step == 1,
        decreases data.columns@.len() - j,
    {
        r.push(Stream { data: data.columns[j].as_slice(), start: 0, step: 1 });
        j += 1;
    }
    r
}

/// One stream per field of a flattened dataset: field `j` is read from cell
/// `j` and steps by the arity, as an address stepping through the cells would.
pub fn blob_streams<'a, L>(data: &'a BlobData<L>) -> (r: Vec<Stream<'a, L>>)
    ensures
        r@.len() == data.arity,
        forall|j: int|
            0 <= j < r@.len() ==> (#[trigger] r@[j]).data@ == data.cells@ && r@[j].start == j
                && r@[j].step == data.arity,
{
    let mut r: Vec<Stream<'a, L>> = Vec::new();
    let mut j: usize = 0;
    while j < data.arity
        invariant
            j <= data.arity,
            r@.len() == j,
            forall|t: int|
                0 <= t < j ==> (#[trigger] r@[t]).data@ == data.cells@ && r@[t].start == t
                    && r@[t].step == data.arity,
        decreases data.arity - j,
    {
        r.push(Stream { data: data.cells.as_slice(), start: j, step: data.arity });
        j += 1;
    }
    r
}

} // verus!
