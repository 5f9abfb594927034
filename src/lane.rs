use vstd::prelude::*;

verus! {

/// The arithmetic that the kernels need from one vector lane group.
///
/// Every operation is a deterministic function of its operands, stated by
/// the spec functions below; the kernels are written and proved once over
/// any such algebra.
pub trait Lane: Sized + Copy {
    /// The value with every lane zero.
    spec fn zero_spec() -> Self;

    /// The value with the integer `n` broadcast to every lane.
    spec fn splat_spec(n: int) -> Self;

    /// Lane-wise sum.
    spec fn plus(self, o: Self) -> Self;

    /// Lane-wise product.
    spec fn times(self, o: Self) -> Self;

    /// Lane-wise fused multiply-add: `self * m + a`.
    spec fn fused(self, m: Self, a: Self) -> Self;

    fn zero() -> (r: Self)
        ensures
            r == Self::zero_spec(),
    ;

    fn splat(n: usize) -> (r: Self)
        ensures
            r == Self::splat_spec(n as int),
    ;

    fn add(self, o: Self) -> (r: Self)
        ensures
            r == self.plus(o),
    ;

    fn mul(self, o: Self) -> (r: Self)
        ensures
            r == self.times(o),
    ;

    fn mul_add(self, m: Self, a: Self) -> (r: Self)
        ensures
            r == self.fused(m, a),
    ;
}

/// Number of lanes in a [`Cluster`].
pub const LANES: usize = 8;

/// Builds an eight-lane array whose lane `j` is `f(j)`.
pub open spec fn lanewise(f: spec_fn(int) -> u32) -> [u32; 8] {
    [f(0), f(1), f(2), f(3), f(4), f(5), f(6), f(7)]
}

/// Eight `u32` lanes with wrapping arithmetic.
#[derive(Clone, Copy, PartialEq, Eq, Debug)]
pub struct Cluster {
    pub lanes: [u32; 8],
}

/// The wrapping sum of the first `n` lanes.
pub open spec fn lane_sum(lanes: Seq<u32>, n: int) -> u32
    decreases n,
{
    if n <= 0 {
        0
    } else {
        lane_sum(lanes, n - 1).wrapping_add(lanes[n - 1])
    }
}

impl Cluster {
    /// Horizontal sum: all lanes added together, wrapping.
    pub fn reduce_sum(&self) -> (r: u32)
        ensures
            r == lane_sum(self.lanes@, 8),
    {
        let mut r: u32 = 0;
        let mut j: usize = 0;
        while j < LANES
            invariant
                j <= LANES,
                r == lane_sum(self.lanes@, j as int),
            decreases LANES - j,
        {
            r = r.wrapping_add(self.lanes[j]);
            j += 1;
        }
        r
    }
}

impl Lane for Cluster {
    open spec fn zero_spec() -> Cluster {
        Cluster { lanes: lanewise(|j: int| 0u32) }
    }

    open spec fn splat_spec(n: int) -> Cluster {
        Cluster { lanes: lanewise(|j: int| n as u32) }
    }

    open spec fn plus(self, o: Cluster) -> Cluster {
        Cluster { lanes: lanewise(|j: int| self.lanes[j].wrapping_add(o.lanes[j])) }
    }

    open spec fn times(self, o: Cluster) -> Cluster {
        Cluster { lanes: lanewise(|j: int| self.lanes[j].wrapping_mul(o.lanes[j])) }
    }

    open spec fn fused(self, m: Cluster, a: Cluster) -> Cluster {
        Cluster {
            lanes: lanewise(|j: int| self.lanes[j].wrapping_mul(m.lanes[j]).wrapping_add(a.lanes[j])),
        }
    }

    fn zero() -> (r: Cluster) {
        let r = Cluster { lanes: [0u32; 8] };
        assert(r.lanes =~= Self::zero_spec().lanes);
        r
    }

    fn splat(n: usize) -> (r: Cluster) {
        let v = n as u32;
        let r = Cluster { lanes: [v, v, v, v, v, v, v, v] };
        assert(r.lanes =~= Self::splat_spec(n as int).lanes);
        r
    }

    fn add(self, o: Cluster) -> (r: Cluster) {
        let mut lanes = self.lanes;
        let mut j: usize = 0;
        while j < LANES
            invariant
                j <= LANES,
                forall|t: int| 0 <= t < j ==> lanes[t] == self.lanes[t].wrapping_add(o.lanes[t]),
            decreases LANES - j,
        {
            lanes[j] = self.lanes[j].wrapping_add(o.lanes[j]);
            j += 1;
        }
        let r = Cluster { lanes };
        assert(r.lanes =~= self.plus(o).lanes);
        r
    }

    fn mul(self, o: Cluster) -> (r: Cluster) {
        let mut lanes = self.lanes;
        let mut j: usize = 0;
        while j < LANES
            invariant
                j <= LANES,
                forall|t: int| 0 <= t < j ==> lanes[t] == self.lanes[t].wrapping_mul(o.lanes[t]),
            decreases LANES - j,
        {
            lanes[j] = self.lanes[j].wrapping_mul(o.lanes[j]);
            j += 1;
        }
        let r = Cluster { lanes };
        assert(r.lanes =~= self.times(o).lanes);
        r
    }

    fn mul_add(self, m: Cluster, a: Cluster) -> (r: Cluster) {
        let mut lanes = self.lanes;
        let mut j: usize = 0;
        while j < LANES
            invariant
                j <= LANES,
                forall|t: int|
                    0 <= t < j ==> lanes[t] == self.lanes[t].wrapping_mul(m.lanes[t]).wrapping_add(
                        a.lanes[t],
                    ),
            decreases LANES - j,
        {
            lanes[j] = self.lanes[j].wrapping_mul(m.lanes[j]).wrapping_add(a.lanes[j]);
            j += 1;
        }
        let r = Cluster { lanes };
        assert(r.lanes =~= self.fused(m, a).lanes);
        r
    }
}

} // verus!
