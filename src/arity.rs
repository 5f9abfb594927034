use vstd::prelude::*;

use crate::chain::{Chain, Step};
use crate::formula::{all_wf, Formula};

verus! {

/// The record widths the benchmark families use.
#[derive(Clone, Copy, PartialEq, Eq, Debug)]
pub enum Arity {
    Three,
    Five,
    Seven,
    Eight,
    Nine,
}

impl Arity {
    pub open spec fn width_spec(self) -> nat {
        match self {
            Arity::Three => 3,
            Arity::Five => 5,
            Arity::Seven => 7,
            Arity::Eight => 8,
            Arity::Nine => 9,
        }
    }

    /// The number of fields of a record.
    pub fn width(&self) -> (r: usize)
        ensures
            r == self.width_spec(),
    {
        match self {
            Arity::Three => 3,
            Arity::Five => 5,
            Arity::Seven => 7,
            Arity::Eight => 8,
            Arity::Nine => 9,
        }
    }

    /// The field formulas of this family, field by field.
    pub open spec fn fields_spec(self) -> Seq<Formula> {
        match self {
            Arity::Three => seq![Formula::Index, Formula::DivBy(3), Formula::Times(2)],
            Arity::Five => seq![
                Formula::Index,
                Formula::DivBy(3),
                Formula::Times(2),
                Formula::Plus(3),
                Formula::Times(4),
            ],
            Arity::Seven => Self::seven_fields(),
            Arity::Eight => Self::seven_fields().push(Formula::Times(7)),
            Arity::Nine => Self::seven_fields().push(Formula::Times(7)).push(Formula::Times(8)),
        }
    }

    pub open spec fn seven_fields() -> Seq<Formula> {
        seq![
            Formula::Index,
            Formula::DivBy(3),
            Formula::Times(2),
            Formula::Times(3),
            Formula::Times(4),
            Formula::Plus(5),
            Formula::Times(6),
        ]
    }

    /// The steps of this family's dense chain, which starts from field 0.
    pub open spec fn steps_spec(self) -> Seq<Step> {
        match self {
            Arity::Three => seq![Step::MulAdd(1, 2)],
            Arity::Five => seq![Step::MulAdd(1, 2), Step::MulAdd(3, 4)],
            Arity::Seven => Self::seven_steps(),
            Arity::Eight => Self::seven_steps().push(Step::Mul(7)),
            Arity::Nine => Self::seven_steps().push(Step::MulAdd(7, 8)),
        }
    }

    pub open spec fn seven_steps() -> Seq<Step> {
        seq![Step::MulAdd(1, 2), Step::MulAdd(3, 4), Step::MulAdd(5, 6)]
    }

    pub fn fields(&self) -> (r: Vec<Formula>)
        ensures
            r@ == self.fields_spec(),
            r@.len() == self.width_spec(),
            all_wf(r@),
    {
        let mut r: Vec<Formula> = Vec::new();
        r.push(Formula::Index);
        r.push(Formula::DivBy(3));
        r.push(Formula::Times(2));
        match self {
            Arity::Three => {},
            Arity::Five => {
                r.push(Formula::Plus(3));
                r.push(Formula::Times(4));
            },
            _ => {
                r.push(Formula::Times(3));
                r.push(Formula::Times(4));
                r.push(Formula::Plus(5));
                r.push(Formula::Times(6));
                match self {
                    Arity::Eight => {
                        r.push(Formula::Times(7));
                    },
                    Arity::Nine => {
                        r.push(Formula::Times(7));
                        r.push(Formula::Times(8));
                    },
                    _ => {},
                }
            },
        }
        assert(r@ =~= self.fields_spec());
        r
    }

    /// The dense chain of this family.
    pub fn chain(&self) -> (r: Chain)
        ensures
            r.start == 0,
            r.steps@ == self.steps_spec(),
            r.fits(self.width_spec() as int),
    {
        let mut steps: Vec<Step> = Vec::new();
        steps.push(Step::MulAdd(1, 2));
        match self {
            Arity::Three => {},
            Arity::Five => {
                steps.push(Step::MulAdd(3, 4));
            },
            _ => {
                steps.push(Step::MulAdd(3, 4));
                steps.push(Step::MulAdd(5, 6));
                match self {
                    Arity::Eight => {
                        steps.push(Step::Mul(7));
                    },
                    Arity::Nine => {
                        steps.push(Step::MulAdd(7, 8));
                    },
                    _ => {},
                }
            },
        }
        assert(steps@ =~= self.steps_spec());
        Chain { start: 0, steps }
    }
}

/// The sparse chain over seven fields: `(f0 * f2 + f3) * f6`.
pub open spec fn sparse_seven_steps() -> Seq<Step> {
    seq![Step::MulAdd(2, 3), Step::Mul(6)]
}

/// The sparse chain over nine fields: `((f0 * f2) * f5 + f6) * f7 + f8`.
pub open spec fn sparse_nine_steps() -> Seq<Step> {
    seq![Step::Mul(2), Step::MulAdd(5, 6), Step::MulAdd(7, 8)]
}

pub fn sparse_seven() -> (r: Chain)
    ensures
        r.start == 0,
        r.steps@ == sparse_seven_steps(),
        r.fits(7),
{
    let mut steps: Vec<Step> = Vec::new();
    steps.push(Step::MulAdd(2, 3));
    steps.push(Step::Mul(6));
    assert(steps@ =~= sparse_seven_steps());
    Chain { start: 0, steps }
}

pub fn sparse_nine() -> (r: Chain)
    ensures
        r.start == 0,
        r.steps@ == sparse_nine_steps(),
        r.fits(9),
{
    let mut steps: Vec<Step> = Vec::new();
    steps.push(Step::Mul(2));
    steps.push(Step::MulAdd(5, 6));
    steps.push(Step::MulAdd(7, 8));
    assert(steps@ =~= sparse_nine_steps());
    Chain { start: 0, steps }
}

} // verus!
