use vstd::prelude::*;

use crate::chain::Chain;
use crate::formula::Formula;
use crate::kernel::{outputs_spec, reduce_spec};
use crate::lane::Lane;
use crate::layout::{blob_cells, blob_records, generated, soa_columns, soa_records};
use crate::stream::{stream_records, Stream};

verus! {

/// The generated layouts hold the same records: for every seed, count and
/// list of field formulas, the struct-of-arrays columns and the flattened cells
/// read back as the array-of-structs records, field for field.
pub proof fn lemma_layout_records_agree<L: Lane>(seed: int, count: int, fields: Seq<Formula>)
    requires
        count >= 0,
    ensures
        soa_records(soa_columns::<L>(seed, count, fields), count) == generated::<L>(seed, count, fields),
        blob_records(blob_cells::<L>(seed, count, fields), fields.len() as int, count) == generated::<L>(
            seed,
            count,
            fields,
        ),
{
    let k = fields.len() as int;
    let gen = generated::<L>(seed, count, fields);
    let soa = soa_records(soa_columns::<L>(seed, count, fields), count);
    let blob = blob_records(blob_cells::<L>(seed, count, fields), k, count);
    assert forall|i: int| 0 <= i < count implies #[trigger] soa[i] =~= gen[i] by {}
    assert(soa =~= gen);
    assert forall|i: int| 0 <= i < count implies #[trigger] blob[i] =~= gen[i] by {
        assert((i + 1) * k <= count * k) by (nonlinear_arith)
            requires
                0 <= i < count,
                k >= 0,
        ;
        assert((i + 1) * k == i * k + k) by (nonlinear_arith);
        assert forall|j: int| 0 <= j < k implies #[trigger] blob[i][j] == gen[i][j] by {
            vstd::arithmetic::div_mod::lemma_fundamental_div_mod_converse(i * k + j, k, i, j);
        }
    }
    assert(blob =~= gen);
}

/// Cross-layout equivalence: for every seed, count, list of field formulas and
/// chain, reducing the array-of-structs, struct-of-arrays and flattened layouts
/// that the generators build gives the same sum and the same output buffer.
pub proof fn lemma_layouts_agree<L: Lane>(seed: int, count: int, fields: Seq<Formula>, chain: &Chain)
    requires
        count >= 0,
    ensures
        reduce_spec(chain, soa_records(soa_columns::<L>(seed, count, fields), count)) == reduce_spec(
            chain,
            generated::<L>(seed, count, fields),
        ),
        reduce_spec(chain, blob_records(blob_cells::<L>(seed, count, fields), fields.len() as int, count))
            == reduce_spec(chain, generated::<L>(seed, count, fields)),
        outputs_spec(chain, soa_records(soa_columns::<L>(seed, count, fields), count)) == outputs_spec(
            chain,
            generated::<L>(seed, count, fields),
        ),
        outputs_spec(chain, blob_records(blob_cells::<L>(seed, count, fields), fields.len() as int, count))
            == outputs_spec(chain, generated::<L>(seed, count, fields)),
{
    lemma_layout_records_agree::<L>(seed, count, fields);
}

/// Cross-indexing equivalence, direct indexing against cursors: streams that
/// read each column of a struct-of-arrays dataset from its start with step one
/// give the same records as indexing the columns directly, and so the same
/// sum and output buffer.
pub proof fn lemma_column_cursors_agree<'a, L: Lane>(
    cols: Seq<Seq<L>>,
    n: int,
    streams: Seq<Stream<'a, L>>,
    chain: &Chain,
)
    requires
        n >= 0,
        streams.len() == cols.len(),
        forall|j: int|
            0 <= j < cols.len() ==> (#[trigger] streams[j]).data@ == cols[j] && streams[j].start == 0
                && streams[j].step == 1,
    ensures
        stream_records(streams, n) == soa_records(cols, n),
        reduce_spec(chain, stream_records(streams, n)) == reduce_spec(chain, soa_records(cols, n)),
        outputs_spec(chain, stream_records(streams, n)) == outputs_spec(chain, soa_records(cols, n)),
{
    let a = stream_records(streams, n);
    let b = soa_records(cols, n);
    assert forall|i: int| 0 <= i < n implies #[trigger] a[i] =~= b[i] by {
        assert forall|j: int| 0 <= j < cols.len() implies #[trigger] a[i][j] == b[i][j] by {
            assert(streams[j].start + i * streams[j].step == i);
        }
    }
    assert(a =~= b);
}

/// Cross-indexing equivalence, offset stepping against cursors: streams that
/// read field `j` of a flattened dataset from cell `j` with step `k` give the
/// same records as stepping one offset by `k` per record, and so the same sum
/// and output buffer.
pub proof fn lemma_blob_cursors_agree<'a, L: Lane>(
    cells: Seq<L>,
    k: int,
    n: int,
    streams: Seq<Stream<'a, L>>,
    chain: &Chain,
)
    requires
        n >= 0,
        k >= 0,
        cells.len() == k * n,
        streams.len() == k,
        forall|j: int|
            0 <= j < k ==> (#[trigger] streams[j]).data@ == cells && streams[j].start == j
                && streams[j].step == k,
    ensures
        stream_records(streams, n) == blob_records(cells, k, n),
        reduce_spec(chain, stream_records(streams, n)) == reduce_spec(chain, blob_records(cells, k, n)),
        outputs_spec(chain, stream_records(streams, n)) == outputs_spec(chain, blob_records(cells, k, n)),
{
    let a = stream_records(streams, n);
    let b = blob_records(cells, k, n);
    assert forall|i: int| 0 <= i < n implies #[trigger] a[i] =~= b[i] by {
        assert((i + 1) * k <= n * k) by (nonlinear_arith)
            requires
                0 <= i < n,
                k >= 0,
        ;
        assert((i + 1) * k == i * k + k) by (nonlinear_arith);
        assert(n * k == k * n) by (nonlinear_arith);
        assert forall|j: int| 0 <= j < k implies #[trigger] a[i][j] == b[i][j] by {
            assert(i * streams[j].step == i * k);
        }
    }
    assert(a =~= b);
}

/// A stream with step zero is a broadcast constant: every record reads the
/// value at its start.
pub proof fn lemma_broadcast_stream<'a, L>(s: Stream<'a, L>, i: int)
    requires
        s.step == 0,
    ensures
        s.at(i) == s.data@[s.start as int],
{
}

/// Zero-length boundary: a dataset of no records is empty in every layout, and
/// a kernel over it returns the zero lane and leaves an empty output buffer as
/// it was.
pub proof fn lemma_empty<L: Lane>(seed: int, fields: Seq<Formula>, chain: &Chain, out: Seq<L>)
    requires
        out.len() == 0,
    ensures
        generated::<L>(seed, 0, fields).len() == 0,
        blob_cells::<L>(seed, 0, fields).len() == 0,
        forall|j: int| 0 <= j < fields.len() ==> (#[trigger] soa_columns::<L>(seed, 0, fields)[j]).len() == 0,
        reduce_spec(chain, generated::<L>(seed, 0, fields)) == L::zero_spec(),
        outputs_spec(chain, generated::<L>(seed, 0, fields)) == out,
{
    assert(outputs_spec(chain, generated::<L>(seed, 0, fields)) =~= out);
}

} // verus!
