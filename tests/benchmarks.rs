use layout_bench::arity::{sparse_nine, sparse_seven, Arity};
use layout_bench::kernel::{reduce_aos, reduce_blob, reduce_soa};
use layout_bench::lane::{Cluster, Lane};
use layout_bench::layout::{AosData, BlobData, SoaData};

fn aos(arity: Arity, seed: usize, n: usize) -> AosData<Cluster> {
    AosData::generate(seed, n, &arity.fields())
}

fn soa(arity: Arity, seed: usize, n: usize) -> SoaData<Cluster> {
    SoaData::generate(seed, n, &arity.fields())
}

fn blob(arity: Arity, seed: usize, n: usize) -> BlobData<Cluster> {
    BlobData::generate(seed, n, &arity.fields())
}

#[test]
fn lib_test_3_benchmarks() {
    let chain = Arity::Three.chain();
    let aos3 = aos(Arity::Three, 0, 10);
    let soa3 = soa(Arity::Three, 0, 10);
    let mut result = vec![Cluster::splat(0); 10];
    assert_eq!(
        reduce_aos(&aos3, &chain, &mut result),
        reduce_soa(&soa3, &chain, &mut result)
    );
}

#[test]
fn lib_test_5_benchmarks() {
    let chain = Arity::Five.chain();
    let aos5 = aos(Arity::Five, 0, 10);
    let soa5 = soa(Arity::Five, 0, 10);
    let aosblob5 = blob(Arity::Five, 0, 10);
    let mut result = vec![Cluster::splat(0); 10];
    assert_eq!(
        reduce_aos(&aos5, &chain, &mut result),
        reduce_soa(&soa5, &chain, &mut result)
    );
    assert_eq!(
        reduce_aos(&aos5, &chain, &mut result),
        reduce_blob(&aosblob5, &chain, &mut result)
    );
}

#[test]
fn lib_test_7_benchmarks() {
    let chain = Arity::Seven.chain();
    let aos7 = aos(Arity::Seven, 0, 10);
    let soa7 = soa(Arity::Seven, 0, 10);
    let mut result = vec![Cluster::splat(0); 10];
    assert_eq!(
        reduce_aos(&aos7, &chain, &mut result),
        reduce_soa(&soa7, &chain, &mut result)
    );
}

#[test]
fn test_7_sparse_benchmarks() {
    let chain = sparse_seven();
    let aos7 = aos(Arity::Seven, 0, 10);
    let soa7 = soa(Arity::Seven, 0, 10);
    let mut result = vec![Cluster::splat(0); 10];
    assert_eq!(
        reduce_aos(&aos7, &chain, &mut result),
        reduce_soa(&soa7, &chain, &mut result)
    );
}

#[test]
fn test_8_benchmarks() {
    let chain = Arity::Eight.chain();
    let aos8 = aos(Arity::Eight, 0, 10);
    let soa8 = soa(Arity::Eight, 0, 10);
    let aosblob8 = blob(Arity::Eight, 0, 10);
    let mut result = vec![Cluster::splat(0); 10];
    assert_eq!(
        reduce_aos(&aos8, &chain, &mut result),
        reduce_soa(&soa8, &chain, &mut result)
    );
    assert_eq!(
        reduce_aos(&aos8, &chain, &mut result),
        reduce_blob(&aosblob8, &chain, &mut result)
    );
}

#[test]
fn lib_test_9_benchmarks() {
    let chain = Arity::Nine.chain();
    let aos9 = aos(Arity::Nine, 0, 10);
    let soa9 = soa(Arity::Nine, 0, 10);
    let aosblob9 = blob(Arity::Nine, 0, 10);
    let mut result = vec![Cluster::splat(0); 10];
    let tmp = reduce_aos(&aos9, &chain, &mut result);
    assert_eq!(tmp, reduce_soa(&soa9, &chain, &mut result));
    assert_eq!(tmp, reduce_blob(&aosblob9, &chain, &mut result));
}

#[test]
fn test_sparse_9_benchmarks() {
    let chain = sparse_nine();
    let aos9 = blob(Arity::Nine, 0, 10);
    let soa9 = soa(Arity::Nine, 0, 10);
    let mut result = vec![Cluster::splat(0); 10];
    assert_eq!(
        reduce_blob(&aos9, &chain, &mut result),
        reduce_soa(&soa9, &chain, &mut result)
    );
}

#[test]
fn main_test_3_benchmarks() {
    let chain = Arity::Three.chain();
    let mut result = vec![Cluster::splat(0); 10];
    let a = reduce_aos(&aos(Arity::Three, 0, 10), &chain, &mut result);
    let s = reduce_soa(&soa(Arity::Three, 0, 10), &chain, &mut result);
    assert_eq!(a, s);
}

#[test]
fn main_test_5_benchmarks() {
    let chain = Arity::Five.chain();
    let mut result = vec![Cluster::splat(0); 10];
    let a = reduce_aos(&aos(Arity::Five, 0, 10), &chain, &mut result);
    let s = reduce_soa(&soa(Arity::Five, 0, 10), &chain, &mut result);
    assert_eq!(a, s);
}

#[test]
fn main_test_7_benchmarks() {
    let chain = Arity::Seven.chain();
    let mut result = vec![Cluster::splat(0); 10];
    let a = reduce_aos(&aos(Arity::Seven, 0, 10), &chain, &mut result);
    let s = reduce_soa(&soa(Arity::Seven, 0, 10), &chain, &mut result);
    assert_eq!(a, s);
}

#[test]
fn main_test_9_benchmarks() {
    let chain = Arity::Nine.chain();
    let mut result = vec![Cluster::splat(0); 10];
    let a = reduce_aos(&aos(Arity::Nine, 0, 10), &chain, &mut result);
    let s = reduce_soa(&soa(Arity::Nine, 0, 10), &chain, &mut result);
    assert_eq!(a, s);
}
