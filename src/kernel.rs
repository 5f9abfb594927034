use vstd::prelude::*;

use crate::chain::{eval_prefix, Chain};
use crate::lane::Lane;
use crate::layout::{AosData, BlobData, SoaData};

verus! {

/// The chain's value on each record, in order.
pub open spec fn results<L: Lane>(chain: &Chain, recs: Seq<Seq<L>>) -> Seq<L> {
    Seq::new(recs.len(), |i: int| chain.eval_spec(recs[i]))
}

/// The sum of `vals`, added from the first to the last, starting from zero.
pub open spec fn total<L: Lane>(vals: Seq<L>) -> L
    decreases vals.len(),
{
    if vals.len() == 0 {
        L::zero_spec()
    } else {
        total(vals.drop_last()).plus(vals.last())
    }
}

/// The running sums of `vals`: entry `i` is the sum of the first `i + 1` values.
pub open spec fn running<L: Lane>(vals: Seq<L>) -> Seq<L> {
    Seq::new(vals.len(), |i: int| total(vals.subrange(0, i + 1)))
}

/// What a kernel returns on the records `recs`: the sum of the chain's values.
pub open spec fn reduce_spec<L: Lane>(chain: &Chain, recs: Seq<Seq<L>>) -> L {
    total(results(chain, recs))
}

/// What a kernel leaves in its output buffer on the records `recs`.
pub open spec fn outputs_spec<L: Lane>(chain: &Chain, recs: Seq<Seq<L>>) -> Seq<L> {
    running(results(chain, recs))
}

proof fn lemma_total_step<L: Lane>(vals: Seq<L>, i: int)
    requires
        0 <= i < vals.len(),
    ensures
        total(vals.subrange(0, i + 1)) == total(vals.subrange(0, i)).plus(vals[i]),
{
    assert(vals.subrange(0, i + 1).drop_last() =~= vals.subrange(0, i));
}

/// A chain reads only the first `w` fields of a record.
pub proof fn lemma_eval_reads_prefix<L: Lane>(chain: &Chain, r1: Seq<L>, r2: Seq<L>, w: int)
    requires
        chain.fits(w),
        r1.len() >= w,
        r2.len() >= w,
        forall|j: int| 0 <= j < w ==> r1[j] == r2[j],
    ensures
        chain.eval_spec(r1) == chain.eval_spec(r2),
{
    lemma_prefix_reads(chain, r1, r2, w, chain.steps@.len() as int);
}

proof fn lemma_prefix_reads<L: Lane>(chain: &Chain, r1: Seq<L>, r2: Seq<L>, w: int, n: int)
    requires
        chain.fits(w),
        r1.len() >= w,
        r2.len() >= w,
        forall|j: int| 0 <= j < w ==> r1[j] == r2[j],
        n <= chain.steps@.len(),
    ensures
        eval_prefix(chain.start, chain.steps@, r1, n) == eval_prefix(chain.start, chain.steps@, r2, n),
    decreases n,
{
    if n > 0 {
        lemma_prefix_reads(chain, r1, r2, w, n - 1);
        assert(chain.steps@[n - 1].fits(w));
    }
}

/// Sum loop shared by the kernels: after record `i`, `out[i]` holds the
/// running sum and `sum` the total so far.
pub(crate) open spec fn kernel_inv<L: Lane>(vals: Seq<L>, out: Seq<L>, sum: L, i: int) -> bool {
    &&& 0 <= i <= vals.len()
    &&& out.len() == vals.len()
    &&& sum == total(vals.subrange(0, i))
    &&& forall|t: int| 0 <= t < i ==> #[trigger] out[t] == running(vals)[t]
}

pub(crate) proof fn lemma_kernel_step<L: Lane>(vals: Seq<L>, out: Seq<L>, sum: L, i: int, new_sum: L, new_out: Seq<L>)
    requires
        kernel_inv(vals, out, sum, i),
        i < vals.len(),
        new_sum == sum.plus(vals[i]),
        new_out == out.update(i, new_sum),
    ensures
        kernel_inv(vals, new_out, new_sum, i + 1),
{
    lemma_total_step(vals, i);
}

pub(crate) proof fn lemma_kernel_done<L: Lane>(vals: Seq<L>, out: Seq<L>, sum: L)
    requires
        kernel_inv(vals, out, sum, vals.len() as int),
    ensures
        sum == total(vals),
        out == running(vals),
{
    assert(vals.subrange(0, vals.len() as int) =~= vals);
    assert(out =~= running(vals));
}

/// Array-of-structs kernel: for each record in order, evaluates `chain` on its
/// fields, adds the value into an accumulator that starts at zero, and writes
/// the accumulator to `out[i]`. Returns the final accumulator.
pub fn reduce_aos<L: Lane>(data: &AosData<L>, chain: &Chain, out: &mut [L]) -> (r: L)
    requires
        data.wf(),
        chain.fits(data.arity as int),
        old(out)@.len() == data@.len(),
    ensures
        r == reduce_spec(chain, data@),
        final(out)@ == outputs_spec(chain, data@),
{
    let ghost vals = results(chain, data@);
    let n = data.records.len();
    let mut sum = L::zero();
    let mut i: usize = 0;
    assert(vals.subrange(0, 0) =~= Seq::<L>::empty());
    while i < n
        invariant
            n == data@.len(),
            data.wf(),
            chain.fits(data.arity as int),
            vals == results(chain, data@),
            kernel_inv(vals, out@, sum, i as int),
        decreases n - i,
    {
        let rec = &data.records[i];
        let tmp = chain.eval_at(rec, 0, data.arity);
        assert(rec@.subrange(0, rec@.len() as int) =~= data@[i as int]);
        let ghost old_out = out@;
        let new_sum = sum.add(tmp);
        out[i] = new_sum;
        proof {
            lemma_kernel_step(vals, old_out, sum, i as int, new_sum, out@);
        }
        sum = new_sum;
        i += 1;
    }
    proof {
        lemma_kernel_done(vals, out@, sum);
    }
    sum
}

/// Field values of record `i` of a struct-of-arrays dataset.
fn gather_row<L: Lane>(data: &SoaData<L>, i: usize) -> (r: Vec<L>)
    requires
        data.wf(),
        i < data.len,
    ensures
        r@ == data@[i as int],
{
    let mut r: Vec<L> = Vec::new();
    let mut j: usize = 0;
    while j < data.columns.len()
        invariant
            data.wf(),
            i < data.len,
            j <= data.columns@.len(),
            r@ =~= data@[i as int].subrange(0, j as int),
        decreases data.columns@.len() - j,
    {
        assert(data.columns@[j as int]@.len() == data.len);
        r.push(data.columns[j][i]);
        j += 1;
    }
    r
}

/// Struct-of-arrays kernel, indexing every column directly by the record
/// number. Same result and output as [`reduce_aos`] on the same records.
pub fn reduce_soa<L: Lane>(data: &SoaData<L>, chain: &Chain, out: &mut [L]) -> (r: L)
    requires
        data.wf(),
        chain.fits(data.columns@.len() as int),
        old(out)@.len() == data.len,
    ensures
        r == reduce_spec(chain, data@),
        final(out)@ == outputs_spec(chain, data@),
{
    let ghost vals = results(chain, data@);
    let n = data.len;
    let width = data.columns.len();
    let mut sum = L::zero();
    let mut i: usize = 0;
    assert(vals.subrange(0, 0) =~= Seq::<L>::empty());
    while i < n
        invariant
            n == data.len == data@.len(),
            width == data.columns@.len(),
            data.wf(),
            chain.fits(width as int),
            vals == results(chain, data@),
            kernel_inv(vals, out@, sum, i as int),
        decreases n - i,
    {
        let rec = gather_row(data, i);
        let tmp = chain.eval_at(&rec, 0, width);
        assert(rec@.subrange(0, rec@.len() as int) =~= data@[i as int]);
        let ghost old_out = out@;
        let new_sum = sum.add(tmp);
        out[i] = new_sum;
        proof {
            lemma_kernel_step(vals, old_out, sum, i as int, new_sum, out@);
        }
        sum = new_sum;
        i += 1;
    }
    proof {
        lemma_kernel_done(vals, out@, sum);
    }
    sum
}

/// Flattened-blob kernel: a single offset walks the cells, advancing by the
/// arity after each record. Same result and output as [`reduce_aos`] on the
/// same records.
pub fn reduce_blob<L: Lane>(data: &BlobData<L>, chain: &Chain, out: &mut [L]) -> (r: L)
    requires
        data.wf(),
        chain.fits(data.arity as int),
        old(out)@.len() == data.len,
    ensures
        r == reduce_spec(chain, data@),
        final(out)@ == outputs_spec(chain, data@),
{
    let ghost vals = results(chain, data@);
    let n = data.len;
    let k = data.arity;
    let mut sum = L::zero();
    let mut i: usize = 0;
    let mut base: usize = 0;
    let total_cells = data.cells.len();
    assert(vals.subrange(0, 0) =~= Seq::<L>::empty());
    while i < n
        invariant
            n == data.len == data@.len(),
            k == data.arity,
            total_cells == data.cells@.len(),
            data.wf(),
            chain.fits(k as int),
            base == i * k,
            vals == results(chain, data@),
            kernel_inv(vals, out@, sum, i as int),
        decreases n - i,
    {
        proof {
            vstd::arithmetic::mul::lemma_mul_inequality((i + 1) as int, n as int, k as int);
            vstd::arithmetic::mul::lemma_mul_is_distributive_add_other_way(k as int, i as int, 1);
            vstd::arithmetic::mul::lemma_mul_is_commutative(n as int, k as int);
        }
        let tmp = chain.eval_at(&data.cells, base, k);
        proof {
            lemma_eval_reads_prefix(
                chain,
                data.cells@.subrange(base as int, total_cells as int),
                data@[i as int],
                k as int,
            );
        }
        let ghost old_out = out@;
        let new_sum = sum.add(tmp);
        out[i] = new_sum;
        proof {
            lemma_kernel_step(vals, old_out, sum, i as int, new_sum, out@);
        }
        sum = new_sum;
        i += 1;
        base = base + k;
    }
    proof {
        lemma_kernel_done(vals, out@, sum);
    }
    sum
}

} // verus!
