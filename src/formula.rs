use vstd::prelude::*;

verus! {

/// How one field of a synthetic record is derived from the record's position.
#[derive(Clone, Copy, PartialEq, Eq, Debug)]
pub enum Formula {
    /// The position itself.
    Index,
    /// The position divided by a positive constant, truncated.
    DivBy(usize),
    /// The position times a constant.
    Times(usize),
    /// The position plus a constant.
    Plus(usize),
}

impl Formula {
    /// The integer this formula gives at position `pos`.
    pub open spec fn value_spec(self, pos: int) -> int {
        match self {
            Formula::Index => pos,
            Formula::DivBy(d) => pos / (d as int),
            Formula::Times(m) => pos * m,
            Formula::Plus(a) => pos + a,
        }
    }

    /// A divisor is never zero.
    pub open spec fn wf(self) -> bool {
        match self {
            Formula::DivBy(d) => d > 0,
            _ => true,
        }
    }

    /// Whether the formula is well formed.
    pub fn is_well_formed(&self) -> (r: bool)
        ensures
            r == self.wf(),
    {
        match *self {
            Formula::DivBy(d) => d > 0,
            _ => true,
        }
    }

    /// The value at `pos` is a machine integer.
    pub open spec fn fits(self, pos: int) -> bool {
        self.value_spec(pos) <= usize::MAX
    }

    /// The value at `pos`.
    pub fn value(&self, pos: usize) -> (r: usize)
        requires
            self.wf(),
            self.fits(pos as int),
        ensures
            r as int == self.value_spec(pos as int),
    {
        match *self {
            Formula::Index => pos,
            Formula::DivBy(d) => pos / d,
            Formula::Times(m) => pos * m,
            Formula::Plus(a) => pos + a,
        }
    }

    /// The value at `pos`, or `None` where it is not a machine integer.
    pub fn checked_value(&self, pos: usize) -> (r: Option<usize>)
        requires
            self.wf(),
        ensures
            r == (if self.fits(pos as int) {
                Some(self.value_spec(pos as int) as usize)
            } else {
                None
            }),
    {
        match *self {
            Formula::Index => Some(pos),
            Formula::DivBy(d) => Some(pos / d),
            Formula::Times(m) => pos.checked_mul(m),
            Formula::Plus(a) => pos.checked_add(a),
        }
    }

    /// A formula grows with the position.
    pub proof fn lemma_monotonic(self, p: int, q: int)
        requires
            self.wf(),
            0 <= p <= q,
        ensures
            0 <= self.value_spec(p) <= self.value_spec(q),
    {
        match self {
            Formula::DivBy(d) => {
                vstd::arithmetic::div_mod::lemma_div_is_ordered(p, q, d as int);
                vstd::arithmetic::div_mod::lemma_div_pos_is_pos(p, d as int);
            },
            Formula::Times(m) => {
                vstd::arithmetic::mul::lemma_mul_inequality(p, q, m as int);
                vstd::arithmetic::mul::lemma_mul_nonnegative(p, m as int);
            },
            _ => {},
        }
    }
}

/// Every formula of `fields` is well formed.
pub open spec fn all_wf(fields: Seq<Formula>) -> bool {
    forall|j: int| 0 <= j < fields.len() ==> (#[trigger] fields[j]).wf()
}

/// Every formula of `fields` gives a machine integer on the positions
/// `[seed, seed + count)`.
pub open spec fn all_fit(fields: Seq<Formula>, seed: int, count: int) -> bool {
    count > 0 ==> forall|j: int| 0 <= j < fields.len() ==> (#[trigger] fields[j]).fits(seed + count - 1)
}

/// Whether `fields` may generate the positions `[seed, seed + count)`: every
/// formula is well formed, the last position is a machine integer, and every
/// formula's value there is one too.
pub fn fields_fit(fields: &Vec<Formula>, seed: usize, count: usize) -> (r: bool)
    ensures
        r == (all_wf(fields@) && seed + count <= usize::MAX && all_fit(fields@, seed as int, count as int)),
{
    let mut j: usize = 0;
    while j < fields.len()
        invariant
            j <= fields@.len(),
            forall|t: int| 0 <= t < j ==> (#[trigger] fields@[t]).wf(),
        decreases fields@.len() - j,
    {
        if !fields[j].is_well_formed() {
            return false;
        }
        j += 1;
    }
    let end = match seed.checked_add(count) {
        Some(e) => e,
        None => return false,
    };
    if count == 0 {
        return true;
    }
    let last = end - 1;
    let mut j: usize = 0;
    while j < fields.len()
        invariant
            j <= fields@.len(),
            all_wf(fields@),
            last == seed + count - 1,
            count > 0,
            forall|t: int| 0 <= t < j ==> (#[trigger] fields@[t]).fits(last as int),
        decreases fields@.len() - j,
    {
        if fields[j].checked_value(last).is_none() {
            return false;
        }
        j += 1;
    }
    true
}

} // verus!
