use vstd::prelude::*;

use crate::lane::Lane;

verus! {

/// One step of a reduction chain, applied to the running value `acc` of a record.
#[derive(Clone, Copy, PartialEq, Eq, Debug)]
pub enum Step {
    /// `acc * field[m] + field[a]`, fused.
    MulAdd(usize, usize),
    /// `acc * field[m]`.
    Mul(usize),
}

impl Step {
    /// Every field index of the step is below `width`.
    pub open spec fn fits(self, width: int) -> bool {
        match self {
            Step::MulAdd(m, a) => m < width && a < width,
            Step::Mul(m) => m < width,
        }
    }

    pub open spec fn apply<L: Lane>(self, acc: L, rec: Seq<L>) -> L {
        match self {
            Step::MulAdd(m, a) => acc.fused(rec[m as int], rec[a as int]),
            Step::Mul(m) => acc.times(rec[m as int]),
        }
    }
}

/// A fixed chain of operations over the fields of one record: it starts from
/// field `start` and applies `steps` in order.
#[derive(Debug)]
pub struct Chain {
    pub start: usize,
    pub steps: Vec<Step>,
}

/// The value after the first `n` steps.
pub open spec fn eval_prefix<L: Lane>(start: usize, steps: Seq<Step>, rec: Seq<L>, n: int) -> L
    decreases n,
{
    if n <= 0 {
        rec[start as int]
    } else {
        steps[n - 1].apply(eval_prefix(start, steps, rec, n - 1), rec)
    }
}

impl Chain {
    /// Every field index of the chain is below `width`.
    pub open spec fn fits(&self, width: int) -> bool {
        &&& self.start < width
        &&& forall|t: int| 0 <= t < self.steps@.len() ==> (#[trigger] self.steps@[t]).fits(width)
    }

    /// Whether every field index of the chain is below `width`.
    pub fn reads_within(&self, width: usize) -> (r: bool)
        ensures
            r == self.fits(width as int),
    {
        if self.start >= width {
            return false;
        }
        let mut t: usize = 0;
        while t < self.steps.len()
            invariant
                t <= self.steps@.len(),
                self.start < width,
                forall|u: int| 0 <= u < t ==> (#[trigger] self.steps@[u]).fits(width as int),
            decreases self.steps@.len() - t,
        {
            let ok = match self.steps[t] {
                Step::MulAdd(m, a) => m < width && a < width,
                Step::Mul(m) => m < width,
            };
            if !ok {
                return false;
            }
            t += 1;
        }
        true
    }

    /// The chain's value on one record, given as its sequence of fields.
    pub open spec fn eval_spec<L: Lane>(&self, rec: Seq<L>) -> L {
        eval_prefix(self.start, self.steps@, rec, self.steps@.len() as int)
    }

    /// Evaluates the chain on the record of `width` fields whose field `j` is
    /// `data[base + j]`.
    pub fn eval_at<L: Lane>(&self, data: &Vec<L>, base: usize, width: usize) -> (r: L)
        requires
            self.fits(width as int),
            base + width <= data@.len(),
        ensures
            r == self.eval_spec(data@.subrange(base as int, data@.len() as int)),
    {
        let ghost rec = data@.subrange(base as int, data@.len() as int);
        // The vector's length is a machine integer, so `base + j` cannot overflow.
        let len = data.len();
        let mut acc = data[base + self.start];
        let mut t: usize = 0;
        while t < self.steps.len()
            invariant
                t <= self.steps@.len(),
                self.fits(width as int),
                base + width <= data@.len(),
                len == data@.len(),
                rec == data@.subrange(base as int, data@.len() as int),
                acc == eval_prefix(self.start, self.steps@, rec, t as int),
            decreases self.steps@.len() - t,
        {
            assert(self.steps@[t as int].fits(width as int));
            acc = match self.steps[t] {
                Step::MulAdd(m, a) => acc.mul_add(data[base + m], data[base + a]),
                Step::Mul(m) => acc.mul(data[base + m]),
            };
            t += 1;
        }
        acc
    }
}

} // verus!
