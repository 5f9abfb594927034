use vstd::prelude::*;

use crate::formula::{all_fit, all_wf, Formula};
use crate::lane::Lane;
use crate::laws::lemma_layout_records_agree;

verus! {

/// Field `f` of the record at position `pos`, broadcast to every lane.
pub open spec fn field_at<L: Lane>(f: Formula, pos: int) -> L {
    L::splat_spec(f.value_spec(pos))
}

/// The record at position `pos`: one value per formula.
pub open spec fn record_at<L: Lane>(fields: Seq<Formula>, pos: int) -> Seq<L> {
    Seq::new(fields.len(), |j: int| field_at::<L>(fields[j], pos))
}

/// The logical dataset: the records at positions `seed, seed + 1, ..., seed + count - 1`.
pub open spec fn generated<L: Lane>(seed: int, count: int, fields: Seq<Formula>) -> Seq<Seq<L>> {
    Seq::new(count as nat, |i: int| record_at::<L>(fields, seed + i))
}

/// The columns of the struct-of-arrays layout: column `j` holds field `j` of every record.
pub open spec fn soa_columns<L: Lane>(seed: int, count: int, fields: Seq<Formula>) -> Seq<Seq<L>> {
    Seq::new(fields.len(), |j: int| Seq::new(count as nat, |i: int| field_at::<L>(fields[j], seed + i)))
}

/// The cells of the flattened layout: cell `i * k + j` holds field `j` of record `i`.
pub open spec fn blob_cells<L: Lane>(seed: int, count: int, fields: Seq<Formula>) -> Seq<L> {
    Seq::new(
        (count * fields.len()) as nat,
        |t: int| field_at::<L>(fields[t % fields.len() as int], seed + t / fields.len() as int),
    )
}

/// Records read out of columns: field `j` of record `i` is `cols[j][i]`.
pub open spec fn soa_records<L>(cols: Seq<Seq<L>>, n: int) -> Seq<Seq<L>> {
    Seq::new(n as nat, |i: int| Seq::new(cols.len(), |j: int| cols[j][i]))
}

/// Records read out of a flat sequence: record `i` is the cells `[i * k, i * k + k)`.
pub open spec fn blob_records<L>(cells: Seq<L>, k: int, n: int) -> Seq<Seq<L>> {
    Seq::new(n as nat, |i: int| cells.subrange(i * k, i * k + k))
}

/// Array-of-structs: one vector of fields per record.
pub struct AosData<L> {
    pub records: Vec<Vec<L>>,
    pub arity: usize,
}

/// Struct-of-arrays: one vector per field, all of length `len`.
pub struct SoaData<L> {
    pub columns: Vec<Vec<L>>,
    pub len: usize,
}

/// Flattened blob: every field of every record in one vector, record after record.
pub struct BlobData<L> {
    pub cells: Vec<L>,
    pub arity: usize,
    pub len: usize,
}

impl<L> View for AosData<L> {
    type V = Seq<Seq<L>>;

    open spec fn view(&self) -> Seq<Seq<L>> {
        self.records@.map_values(|r: Vec<L>| r@)
    }
}

impl<L> View for SoaData<L> {
    type V = Seq<Seq<L>>;

    open spec fn view(&self) -> Seq<Seq<L>> {
        soa_records(self.columns_view(), self.len as int)
    }
}

impl<L> View for BlobData<L> {
    type V = Seq<Seq<L>>;

    open spec fn view(&self) -> Seq<Seq<L>> {
        blob_records(self.cells@, self.arity as int, self.len as int)
    }
}

impl<L> AosData<L> {
    pub open spec fn wf(&self) -> bool {
        forall|i: int| 0 <= i < self.records@.len() ==> (#[trigger] self.records@[i])@.len() == self.arity
    }
}

impl<L> SoaData<L> {
    pub open spec fn columns_view(&self) -> Seq<Seq<L>> {
        self.columns@.map_values(|c: Vec<L>| c@)
    }

    pub open spec fn wf(&self) -> bool {
        forall|j: int| 0 <= j < self.columns@.len() ==> (#[trigger] self.columns@[j])@.len() == self.len
    }
}

impl<L> BlobData<L> {
    pub open spec fn wf(&self) -> bool {
        self.cells@.len() == self.arity * self.len
    }
}

/// Every formula fits at every position of `[seed, seed + count)`.
proof fn lemma_fits_at(fields: Seq<Formula>, seed: int, count: int, pos: int)
    requires
        all_wf(fields),
        all_fit(fields, seed, count),
        0 <= seed <= pos < seed + count,
    ensures
        forall|j: int| 0 <= j < fields.len() ==> (#[trigger] fields[j]).fits(pos),
{
    assert forall|j: int| 0 <= j < fields.len() implies (#[trigger] fields[j]).fits(pos) by {
        fields[j].lemma_monotonic(pos, seed + count - 1);
    }
}

/// The record at `pos`.
fn make_record<L: Lane>(fields: &Vec<Formula>, pos: usize) -> (r: Vec<L>)
    requires
        all_wf(fields@),
        forall|j: int| 0 <= j < fields@.len() ==> (#[trigger] fields@[j]).fits(pos as int),
    ensures
        r@ == record_at::<L>(fields@, pos as int),
{
    let mut r: Vec<L> = Vec::new();
    let mut j: usize = 0;
    while j < fields.len()
        invariant
            j <= fields@.len(),
            all_wf(fields@),
            forall|t: int| 0 <= t < fields@.len() ==> (#[trigger] fields@[t]).fits(pos as int),
            r@ =~= record_at::<L>(fields@, pos as int).subrange(0, j as int),
        decreases fields@.len() - j,
    {
        let f = fields[j];
        assert(fields@[j as int].wf() && fields@[j as int].fits(pos as int));
        r.push(L::splat(f.value(pos)));
        j += 1;
    }
    r
}

/// Field `f` of the records at positions `[seed, seed + count)`.
fn make_column<L: Lane>(f: Formula, seed: usize, count: usize) -> (r: Vec<L>)
    requires
        f.wf(),
        seed + count <= usize::MAX,
        count > 0 ==> f.fits(seed + count - 1),
    ensures
        r@ == Seq::new(count as nat, |i: int| field_at::<L>(f, seed + i)),
{
    let ghost want = Seq::new(count as nat, |i: int| field_at::<L>(f, seed + i));
    let mut r: Vec<L> = Vec::new();
    let mut i: usize = 0;
    while i < count
        invariant
            i <= count,
            f.wf(),
            seed + count <= usize::MAX,
            count > 0 ==> f.fits(seed + count - 1),
            want == Seq::new(count as nat, |i: int| field_at::<L>(f, seed + i)),
            r@ =~= want.subrange(0, i as int),
        decreases count - i,
    {
        proof {
            f.lemma_monotonic((seed + i) as int, seed + count - 1);
        }
        r.push(L::splat(f.value(seed + i)));
        i += 1;
    }
    r
}

impl<L: Lane> AosData<L> {
    /// Generates `count` records starting at position `seed`, one struct per record.
    pub fn generate(seed: usize, count: usize, fields: &Vec<Formula>) -> (r: AosData<L>)
        requires
            seed + count <= usize::MAX,
            all_wf(fields@),
            all_fit(fields@, seed as int, count as int),
        ensures
            r.wf(),
            r.arity == fields@.len(),
            r@ == generated::<L>(seed as int, count as int, fields@),
    {
        let ghost want = generated::<L>(seed as int, count as int, fields@);
        let mut records: Vec<Vec<L>> = Vec::new();
        let mut i: usize = 0;
        while i < count
            invariant
                i <= count,
                seed + count <= usize::MAX,
                all_wf(fields@),
                all_fit(fields@, seed as int, count as int),
                want == generated::<L>(seed as int, count as int, fields@),
                records@.len() == i,
                forall|t: int| 0 <= t < i ==> (#[trigger] records@[t])@ == want[t],
            decreases count - i,
        {
            proof {
                lemma_fits_at(fields@, seed as int, count as int, (seed + i) as int);
            }
            let rec = make_record(fields, seed + i);
            records.push(rec);
            i += 1;
        }
        let r = AosData { records, arity: fields.len() };
        assert(r@ =~= want);
        r
    }
}

impl<L: Lane> SoaData<L> {
    /// Generates `count` records starting at position `seed`, one vector per field.
    pub fn generate(seed: usize, count: usize, fields: &Vec<Formula>) -> (r: SoaData<L>)
        requires
            seed + count <= usize::MAX,
            all_wf(fields@),
            all_fit(fields@, seed as int, count as int),
        ensures
            r.wf(),
            r.len == count,
            r.columns_view() == soa_columns::<L>(seed as int, count as int, fields@),
            r@ == generated::<L>(seed as int, count as int, fields@),
    {
        let ghost want = soa_columns::<L>(seed as int, count as int, fields@);
        let mut columns: Vec<Vec<L>> = Vec::new();
        let mut j: usize = 0;
        while j < fields.len()
            invariant
                j <= fields@.len(),
                seed + count <= usize::MAX,
                all_wf(fields@),
                all_fit(fields@, seed as int, count as int),
                want == soa_columns::<L>(seed as int, count as int, fields@),
                columns@.len() == j,
                forall|t: int| 0 <= t < j ==> (#[trigger] columns@[t])@ == want[t],
            decreases fields@.len() - j,
        {
            let f = fields[j];
            assert(fields@[j as int].wf());
            let col = make_column(f, seed, count);
            columns.push(col);
            j += 1;
        }
        let r = SoaData { columns, len: count };
        assert(r.columns_view() =~= want);
        proof {
            lemma_layout_records_agree::<L>(seed as int, count as int, fields@);
        }
        r
    }
}

impl<L: Lane> BlobData<L> {
    /// Generates `count` records starting at position `seed`, all fields of all
    /// records in one vector.
    pub fn generate(seed: usize, count: usize, fields: &Vec<Formula>) -> (r: BlobData<L>)
        requires
            seed + count <= usize::MAX,
            count * fields@.len() <= usize::MAX,
            all_wf(fields@),
            all_fit(fields@, seed as int, count as int),
        ensures
            r.wf(),
            r.arity == fields@.len(),
            r.len == count,
            r.cells@ == blob_cells::<L>(seed as int, count as int, fields@),
            r@ == generated::<L>(seed as int, count as int, fields@),
    {
        let ghost want = blob_cells::<L>(seed as int, count as int, fields@);
        let k = fields.len();
        let mut cells: Vec<L> = Vec::new();
        let mut i: usize = 0;
        while i < count
            invariant
                i <= count,
                k == fields@.len(),
                seed + count <= usize::MAX,
                count * k <= usize::MAX,
                all_wf(fields@),
                all_fit(fields@, seed as int, count as int),
                want == blob_cells::<L>(seed as int, count as int, fields@),
                cells@.len() == i * k,
                forall|t: int| 0 <= t < cells@.len() ==> #[trigger] cells@[t] == want[t],
            decreases count - i,
        {
            proof {
                lemma_fits_at(fields@, seed as int, count as int, (seed + i) as int);
                vstd::arithmetic::mul::lemma_mul_inequality((i + 1) as int, count as int, k as int);
                vstd::arithmetic::mul::lemma_mul_is_distributive_add_other_way(k as int, i as int, 1);
            }
            let mut j: usize = 0;
            while j < k
                invariant
                    i < count,
                    seed + count <= usize::MAX,
                    j <= k,
                    k == fields@.len(),
                    (i + 1) * k <= count * k <= usize::MAX,
                    (i + 1) * k == i * k + k,
                    all_wf(fields@),
                    forall|t: int| 0 <= t < fields@.len() ==> (#[trigger] fields@[t]).fits((seed + i) as int),
                    want == blob_cells::<L>(seed as int, count as int, fields@),
                    cells@.len() == i * k + j,
                    forall|t: int| 0 <= t < cells@.len() ==> #[trigger] cells@[t] == want[t],
                decreases k - j,
            {
                let f = fields[j];
                assert(fields@[j as int].wf() && fields@[j as int].fits((seed + i) as int));
                let v = L::splat(f.value(seed + i));
                proof {
                    let t = i * k + j;
                    vstd::arithmetic::div_mod::lemma_fundamental_div_mod_converse(
                        t as int,
                        k as int,
                        i as int,
                        j as int,
                    );
                    assert(v == want[t as int]);
                }
                cells.push(v);
                j += 1;
            }
            i += 1;
        }
        assert(cells@.len() == k * count) by (nonlinear_arith)
            requires
                cells@.len() == i * k,
                i == count,
        ;
        assert(cells@ =~= want);
        proof {
            lemma_layout_records_agree::<L>(seed as int, count as int, fields@);
        }
        BlobData { cells, arity: k, len: count }
    }
}

} // verus!
