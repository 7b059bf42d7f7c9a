use vstd::prelude::*;

verus! {

/// A failure-rate threshold, held exactly as the fraction `num / den`.
#[derive(Clone, Copy, Debug)]
pub struct Ratio {
    pub num: u32,
    pub den: u32,
}

impl Ratio {
    /// The threshold `num / den`.
    pub fn new(num: u32, den: u32) -> (r: Ratio)
        requires
            den > 0,
        ensures
            r == (Ratio { num, den }),
    {
        Ratio { num, den }
    }

    /// A threshold is well formed when its denominator is positive.
    pub open spec fn wf(&self) -> bool {
        self.den > 0
    }
}

/// `failures / len >= t`, compared without division.
pub open spec fn rate_at_least(failures: nat, len: nat, t: Ratio) -> bool {
    failures * t.den >= t.num * len
}

/// `failures / len <= t`, compared without division.
pub open spec fn rate_at_most(failures: nat, len: nat, t: Ratio) -> bool {
    failures * t.den <= t.num * len
}

proof fn lemma_products_fit(failures: usize, len: usize, t: Ratio)
    ensures
        (failures as u128) * (t.den as u128) <= u128::MAX,
        (t.num as u128) * (len as u128) <= u128::MAX,
{
    assert((failures as u128) * (t.den as u128) <= 0x1_0000_0000_0000_0000 * 0x1_0000_0000)
        by (nonlinear_arith)
        requires
            failures <= 0xffff_ffff_ffff_ffff,
            t.den <= 0xffff_ffff,
    ;
    assert((t.num as u128) * (len as u128) <= 0x1_0000_0000 * 0x1_0000_0000_0000_0000)
        by (nonlinear_arith)
        requires
            len <= 0xffff_ffff_ffff_ffff,
            t.num <= 0xffff_ffff,
    ;
}

/// Whether `failures` out of `len` reaches the threshold `t`.
pub fn reaches(failures: usize, len: usize, t: Ratio) -> (r: bool)
    ensures
        r == rate_at_least(failures as nat, len as nat, t),
{
    proof {
        lemma_products_fit(failures, len, t);
    }
    (failures as u128) * (t.den as u128) >= (t.num as u128) * (len as u128)
}

/// Whether `failures` out of `len` stays at or under the threshold `t`.
pub fn within(failures: usize, len: usize, t: Ratio) -> (r: bool)
    ensures
        r == rate_at_most(failures as nat, len as nat, t),
{
    proof {
        lemma_products_fit(failures, len, t);
    }
    (failures as u128) * (t.den as u128) <= (t.num as u128) * (len as u128)
}

} // verus!
