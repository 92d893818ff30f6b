//! Usage fractions and their rendering as percentages.

use vstd::prelude::*;

verus! {

/// The number of hundredths of a percent that `part` out of `whole` amounts
/// to, rounded to the nearest hundredth; an exact half rounds up.
///
/// Only meaningful for a `whole` above zero.
pub open spec fn hundredths_of_percent(part: nat, whole: nat) -> nat
    recommends
        whole > 0,
{
    ((2 * 10_000 * part + whole) / (2 * whole)) as nat
}

/// A usage fraction: `part` units in use out of `whole` units in total.
///
/// The whole is never zero, so the quotient is always defined.
#[derive(Clone, Copy, Debug, PartialEq, Eq)]
pub struct Ratio {
    part: u64,
    whole: u64,
}

impl Ratio {
    #[verifier::type_invariant]
    spec fn whole_is_positive(self) -> bool {
        self.whole > 0
    }

    /// The units in use.
    pub closed spec fn spec_part(&self) -> u64 {
        self.part
    }

    /// The units in total.
    pub closed spec fn spec_whole(&self) -> u64 {
        self.whole
    }

    /// The fraction of `part` out of `whole`, as a mathematical value.
    pub closed spec fn of(part: u64, whole: u64) -> Ratio {
        Ratio { part, whole }
    }

    /// Whether the fraction lies in the closed interval from 0 to 1.
    pub open spec fn in_unit_interval(self) -> bool {
        0 < self.spec_whole() && self.spec_part() <= self.spec_whole()
    }

    /// The fraction `part / whole`, or `None` where `whole` is zero and the
    /// quotient is undefined.
    pub fn new(part: u64, whole: u64) -> (ratio: Option<Ratio>)
        ensures
            ratio == (if whole == 0 {
                None
            } else {
                Some(Ratio::of(part, whole))
            }),
            ratio matches Some(r) ==> r.part() == part && r.whole() == whole,
    {
        if whole == 0 {
            None
        } else {
            Some(Ratio { part, whole })
        }
    }

    /// `Ratio::of` keeps both of its arguments.
    pub broadcast proof fn lemma_of_parts(part: u64, whole: u64)
        ensures
            (#[trigger] Ratio::of(part, whole)).part() == part,
            Ratio::of(part, whole).whole() == whole,
    {
    }

    /// The units in use.
    #[verifier::when_used_as_spec(spec_part)]
    pub fn part(&self) -> (part: u64)
        ensures
            part == self.spec_part(),
    {
        self.part
    }

    /// The units in total; never zero.
    #[verifier::when_used_as_spec(spec_whole)]
    pub fn whole(&self) -> (whole: u64)
        ensures
            whole == self.spec_whole(),
            whole > 0,
    {
        proof {
            use_type_invariant(self);
        }
        self.whole
    }

    /// The fraction as hundredths of a percent, rounded to the nearest
    /// hundredth with an exact half rounded up: one half is 5000.
    pub fn hundredths_of_percent(&self) -> (hundredths: u128)
        ensures
            hundredths == hundredths_of_percent(self.part() as nat, self.whole() as nat),
    {
        proof {
            use_type_invariant(self);
        }
        let part: u128 = self.part as u128;
        let whole: u128 = self.whole as u128;
        (20_000 * part + whole) / (2 * whole)
    }
}

} // verus!
