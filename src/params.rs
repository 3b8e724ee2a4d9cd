use vstd::prelude::*;

verus! {

/// A fraction `numerator / denominator` of the participants.
#[derive(PartialEq, Eq, Structural, Debug, Copy, Clone)]
pub struct Fraction {
    pub numerator: u64,
    pub denominator: u64,
}

impl Fraction {
    /// A fraction between zero and one, with a non-zero denominator.
    pub open spec fn wf(self) -> bool {
        self.denominator > 0 && self.numerator <= self.denominator
    }
}

/// `ceil(f * n)`: how many of `n` participants a fraction `f` asks for.
pub open spec fn fraction_count(f: Fraction, n: nat) -> nat
    recommends
        f.wf(),
{
    ((f.numerator * n + f.denominator - 1) / (f.denominator as int)) as nat
}

/// Return `ceil(f * n)`, the number of participants out of `n` that the
/// fraction `f` asks for. It is never more than `n`.
pub fn count_for_fraction(f: Fraction, n: usize) -> (r: usize)
    requires
        f.wf(),
    ensures
        r == fraction_count(f, n as nat),
        r <= n,
{
    let num: u128 = f.numerator as u128;
    let den: u128 = f.denominator as u128;
    proof {
        assert(num * (n as u128) <= u64::MAX as int * usize::MAX as int) by (nonlinear_arith)
            requires
                num <= u64::MAX,
                n <= usize::MAX,
        ;
        assert(u64::MAX as int * usize::MAX as int + u64::MAX as int <= u128::MAX) by (
        nonlinear_arith)
            requires
                usize::MAX <= u64::MAX,
        ;
    }
    let total: u128 = num * (n as u128) + (den - 1);
    let r: u128 = total / den;
    proof {
        let a = num as int;
        let d = den as int;
        let m = n as int;
        assert(a * m <= d * m) by (nonlinear_arith)
            requires
                a <= d,
                0 <= m,
        ;
        assert((a * m + d - 1) / d <= m) by (nonlinear_arith)
            requires
                a * m <= d * m,
                d > 0,
                0 <= m,
        ;
    }
    r as usize
}

/// The parameters of one round, as the coordinator publishes them.
#[derive(Debug, Clone)]
pub struct RoundParameters {
    /// Counter of the round these parameters belong to.
    pub round_id: u64,
    /// Public key with which participants encrypt their messages.
    pub pk: Vec<u8>,
    /// Random seed of the round.
    pub seed: Vec<u8>,
    /// Fraction of participants selected for the sum task.
    pub sum: Fraction,
    /// Fraction of participants selected for the update task.
    pub update: Fraction,
}

/// Whether two sets of round parameters are the same, field by field.
pub open spec fn same_params(a: RoundParameters, b: RoundParameters) -> bool {
    &&& a.round_id == b.round_id
    &&& a.pk@ == b.pk@
    &&& a.seed@ == b.seed@
    &&& a.sum == b.sum
    &&& a.update == b.update
}

/// Return whether two byte strings are equal.
pub fn bytes_equal(a: &Vec<u8>, b: &Vec<u8>) -> (r: bool)
    ensures
        r == (a@ == b@),
{
    if a.len() != b.len() {
        return false;
    }
    let mut i: usize = 0;
    while i < a.len()
        invariant
            a@.len() == b@.len(),
            0 <= i <= a@.len(),
            forall|j: int| 0 <= j < i ==> a@[j] == b@[j],
        decreases a@.len() - i,
    {
        if a[i] != b[i] {
            return false;
        }
        i = i + 1;
    }
    proof {
        assert(a@ =~= b@);
    }
    true
}

impl RoundParameters {
    /// The parameters a participant holds before it ever heard of a round.
    pub fn initial() -> (r: RoundParameters)
        ensures
            r.round_id == 0,
            r.pk@.len() == 0,
            r.seed@.len() == 0,
            r.sum == (Fraction { numerator: 0, denominator: 1 }),
            r.update == (Fraction { numerator: 0, denominator: 1 }),
    {
        RoundParameters {
            round_id: 0,
            pk: Vec::new(),
            seed: Vec::new(),
            sum: Fraction { numerator: 0, denominator: 1 },
            update: Fraction { numerator: 0, denominator: 1 },
        }
    }

    /// A copy of these parameters.
    pub fn duplicate(&self) -> (r: RoundParameters)
        ensures
            same_params(r, *self),
    {
        RoundParameters {
            round_id: self.round_id,
            pk: self.pk.clone(),
            seed: self.seed.clone(),
            sum: self.sum,
            update: self.update,
        }
    }
}

impl PartialEq for RoundParameters {
    fn eq(&self, other: &RoundParameters) -> (r: bool) {
        self.round_id == other.round_id && bytes_equal(&self.pk, &other.pk) && bytes_equal(
            &self.seed,
            &other.seed,
        ) && self.sum == other.sum && self.update == other.update
    }
}

impl vstd::std_specs::cmp::PartialEqSpecImpl for RoundParameters {
    open spec fn obeys_eq_spec() -> bool {
        true
    }

    open spec fn eq_spec(&self, other: &RoundParameters) -> bool {
        same_params(*self, *other)
    }
}

impl Eq for RoundParameters {

}

} // verus!
