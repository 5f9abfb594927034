use layout_bench::arity::{sparse_nine, sparse_seven, Arity};
use layout_bench::chain::{Chain, Step};
use layout_bench::driver::{make_data, make_datasets, next_cursor, M, N, STRIDE};
use layout_bench::formula::Formula;
use layout_bench::kernel::{reduce_aos, reduce_blob, reduce_soa};
use layout_bench::lane::{Cluster, Lane};
use layout_bench::layout::{AosData, BlobData, SoaData};
use layout_bench::stream::{blob_streams, column_streams, reduce_streams, Stream};

fn all_layouts(arity: Arity, chain: &Chain, seed: usize, n: usize) -> [(Cluster, Vec<Cluster>); 5] {
    let fields = arity.fields();
    let aos = AosData::<Cluster>::generate(seed, n, &fields);
    let soa = SoaData::<Cluster>::generate(seed, n, &fields);
    let blob = BlobData::<Cluster>::generate(seed, n, &fields);
    let mut o1 = vec![Cluster::splat(0); n];
    let mut o2 = vec![Cluster::splat(0); n];
    let mut o3 = vec![Cluster::splat(0); n];
    let mut o4 = vec![Cluster::splat(0); n];
    let mut o5 = vec![Cluster::splat(0); n];
    let r1 = reduce_aos(&aos, chain, &mut o1);
    let r2 = reduce_soa(&soa, chain, &mut o2);
    let r3 = reduce_blob(&blob, chain, &mut o3);
    let r4 = reduce_streams(&column_streams(&soa), chain, &mut o4);
    let r5 = reduce_streams(&blob_streams(&blob), chain, &mut o5);
    [(r1, o1), (r2, o2), (r3, o3), (r4, o4), (r5, o5)]
}

fn splats(v: &[u32]) -> Vec<Cluster> {
    v.iter().map(|&x| Cluster::splat(x as usize)).collect()
}

#[test]
fn every_layout_and_indexing_agrees_with_exact_values() {
    let cases: [(Arity, u32, [u32; 3]); 5] = [
        (Arity::Three, 171, [0, 2, 6]),
        (Arity::Five, 1854, [0, 12, 40]),
        (Arity::Seven, 45510, [0, 66, 302]),
        (Arity::Eight, 2415882, [0, 462, 3766]),
        (Arity::Nine, 2416242, [0, 470, 3790]),
    ];
    for (arity, sum, first) in cases {
        let runs = all_layouts(arity, &arity.chain(), 0, 10);
        for (r, out) in runs.iter() {
            assert_eq!(*r, Cluster::splat(sum as usize));
            assert_eq!(out.len(), 10);
            assert_eq!(out[..3].to_vec(), splats(&first));
            assert_eq!(out[9], *r);
        }
    }
}

#[test]
fn dense_three_running_sums() {
    let runs = all_layouts(Arity::Three, &Arity::Three.chain(), 0, 10);
    let want = splats(&[0, 2, 6, 15, 27, 42, 66, 94, 126, 171]);
    for (_, out) in runs.iter() {
        assert_eq!(*out, want);
    }
}

#[test]
fn sparse_chains_exact_values() {
    for (r, _) in all_layouts(Arity::Seven, &sparse_seven(), 0, 10).iter() {
        assert_eq!(*r, Cluster::splat(29430));
    }
    for (r, out) in all_layouts(Arity::Nine, &sparse_nine(), 0, 10).iter() {
        assert_eq!(*r, Cluster::splat(368742));
        assert_eq!(out[1], Cluster::splat(134));
    }
}

#[test]
fn nonzero_seed_shifts_positions() {
    for (r, out) in all_layouts(Arity::Three, &Arity::Three.chain(), 5, 4).iter() {
        assert_eq!(*r, Cluster::splat(99));
        assert_eq!(*out, splats(&[15, 39, 67, 99]));
    }
}

#[test]
fn generated_field_values() {
    let fields = Arity::Nine.fields();
    let aos = AosData::<Cluster>::generate(0, 10, &fields);
    assert_eq!(aos.arity, 9);
    assert_eq!(aos.records.len(), 10);
    assert_eq!(aos.records[7], splats(&[7, 2, 14, 21, 28, 12, 42, 49, 56]));
    let five = Arity::Five.fields();
    assert_eq!(
        five,
        vec![Formula::Index, Formula::DivBy(3), Formula::Times(2), Formula::Plus(3), Formula::Times(4)]
    );
    let soa = SoaData::<Cluster>::generate(2, 3, &five);
    assert_eq!(soa.len, 3);
    assert_eq!(soa.columns[3], splats(&[5, 6, 7]));
    let blob = BlobData::<Cluster>::generate(2, 3, &five);
    assert_eq!(blob.cells.len(), 15);
    assert_eq!(blob.cells[5..10].to_vec(), splats(&[3, 1, 6, 6, 12]));
}

#[test]
fn generation_is_deterministic() {
    for arity in [Arity::Three, Arity::Five, Arity::Seven, Arity::Eight, Arity::Nine] {
        let fields = arity.fields();
        let a1 = AosData::<Cluster>::generate(3, 12, &fields);
        let a2 = AosData::<Cluster>::generate(3, 12, &fields);
        assert_eq!(a1.records, a2.records);
        let s1 = SoaData::<Cluster>::generate(3, 12, &fields);
        let s2 = SoaData::<Cluster>::generate(3, 12, &fields);
        assert_eq!(s1.columns, s2.columns);
        let b1 = BlobData::<Cluster>::generate(3, 12, &fields);
        let b2 = BlobData::<Cluster>::generate(3, 12, &fields);
        assert_eq!(b1.cells, b2.cells);
    }
}

#[test]
fn empty_dataset_reduces_to_zero() {
    for arity in [Arity::Three, Arity::Five, Arity::Seven, Arity::Eight, Arity::Nine] {
        let fields = arity.fields();
        let aos = AosData::<Cluster>::generate(4, 0, &fields);
        let soa = SoaData::<Cluster>::generate(4, 0, &fields);
        let blob = BlobData::<Cluster>::generate(4, 0, &fields);
        assert!(aos.records.is_empty());
        assert!(soa.columns.iter().all(|c| c.is_empty()));
        assert!(blob.cells.is_empty());
        for (r, out) in all_layouts(arity, &arity.chain(), 4, 0).iter() {
            assert_eq!(*r, Cluster::zero());
            assert!(out.is_empty());
        }
    }
}

#[test]
fn accumulator_starts_at_zero_each_call() {
    let chain = Arity::Five.chain();
    let soa = SoaData::<Cluster>::generate(0, 10, &Arity::Five.fields());
    let mut out = vec![Cluster::splat(12345); 10];
    let first = reduce_soa(&soa, &chain, &mut out);
    let first_out = out.clone();
    let second = reduce_soa(&soa, &chain, &mut out);
    assert_eq!(first, second);
    assert_eq!(first_out, out);
    assert_eq!(first, Cluster::splat(1854));
}

#[test]
fn broadcast_stream_reads_one_value() {
    let one = [Cluster::splat(6)];
    let col = splats(&[1, 2, 3]);
    let streams = vec![
        Stream { data: &col, start: 0, step: 1 },
        Stream { data: &one, start: 0, step: 0 },
    ];
    let chain = Chain { start: 0, steps: vec![Step::Mul(1)] };
    let mut out = vec![Cluster::splat(0); 3];
    assert_eq!(reduce_streams(&streams, &chain, &mut out), Cluster::splat(36));
    assert_eq!(out, splats(&[6, 18, 36]));
}

#[test]
fn stream_with_offset_and_step() {
    let cells = splats(&[9, 1, 9, 2, 9, 3]);
    let streams = vec![Stream { data: &cells, start: 1, step: 2 }];
    let chain = Chain { start: 0, steps: vec![] };
    let mut out = vec![Cluster::splat(0); 3];
    assert_eq!(reduce_streams(&streams, &chain, &mut out), Cluster::splat(6));
    assert_eq!(out, splats(&[1, 3, 6]));
}

#[test]
fn lane_arithmetic_wraps() {
    let big = Cluster::splat(1 << 20);
    assert_eq!(big.mul(big), Cluster::zero());
    let max = Cluster::splat(u32::MAX as usize);
    assert_eq!(max.add(Cluster::splat(2)), Cluster::splat(1));
    assert_eq!(Cluster::splat(3).mul_add(Cluster::splat(4), Cluster::splat(5)), Cluster::splat(17));
    let mixed = Cluster { lanes: [1, 2, 3, 4, 5, 6, 7, 8] };
    assert_eq!(mixed.mul(mixed).lanes, [1, 4, 9, 16, 25, 36, 49, 64]);
    assert_eq!(mixed.add(mixed).lanes, [2, 4, 6, 8, 10, 12, 14, 16]);
    assert_eq!(mixed.reduce_sum(), 36);
    assert_eq!(Cluster { lanes: [u32::MAX, 3, 0, 0, 0, 0, 0, 0] }.reduce_sum(), 2);
}

#[test]
fn pool_and_cursor() {
    let pool = make_datasets(|seed| seed * 2);
    assert_eq!(pool.len(), M);
    assert_eq!(pool[0], 0);
    assert_eq!(pool[299], 598);
    assert_eq!(next_cursor(0, STRIDE, M), 7);
    assert_eq!(next_cursor(295, STRIDE, M), 2);
    assert_eq!(next_cursor(293, STRIDE, M), 0);
    assert_eq!(next_cursor(3, 1000, 10), 3);
    assert_eq!(next_cursor(0, 0, 1), 0);
}

#[test]
fn constant_data() {
    let d = make_data::<Cluster>();
    assert_eq!(d.a, vec![Cluster::splat(4); N]);
    assert_eq!(d.b, vec![Cluster::splat(1); N]);
    assert_eq!(d.c, vec![Cluster::splat(3); N]);
    assert_eq!(d.d, vec![Cluster::splat(2); N]);
    assert_eq!(d.e, vec![Cluster::splat(5); N]);
}

#[test]
fn tables_have_their_width() {
    for arity in [Arity::Three, Arity::Five, Arity::Seven, Arity::Eight, Arity::Nine] {
        assert_eq!(arity.fields().len(), arity.width());
    }
    assert_eq!(Arity::Eight.chain().steps.last(), Some(&Step::Mul(7)));
    assert_eq!(Arity::Nine.chain().steps.len(), 4);
    assert_eq!(sparse_seven().steps, vec![Step::MulAdd(2, 3), Step::Mul(6)]);
}
