use vstd::prelude::*;

verus! {

/// One more than the largest arity of the small tier (the default).
pub const LIMIT_SMALL: u8 = 13;

/// One more than the largest arity of the medium tier.
pub const LIMIT_MEDIUM: u8 = 25;

/// One more than the largest arity of the large tier.
pub const LIMIT_LARGE: u8 = 65;

/// One more than the largest arity of the huge tier.
pub const LIMIT_HUGE: u8 = 251;

/// How many arities the generator covers.
#[derive(Clone, Copy, Debug, PartialEq, Eq, Structural)]
pub enum SizeTier {
    Small,
    Medium,
    Large,
    Huge,
}

/// A tier selection that names more than one tier.
#[derive(Clone, Copy, Debug, PartialEq, Eq, Structural)]
pub enum TierError {
    Conflicting,
}

impl SizeTier {
    /// The number of arities generated for this tier: arities `0 .. limit`.
    pub open spec fn spec_limit(self) -> nat {
        match self {
            SizeTier::Small => 13,
            SizeTier::Medium => 25,
            SizeTier::Large => 65,
            SizeTier::Huge => 251,
        }
    }

    pub fn limit(self) -> (r: u8)
        ensures
            r as nat == self.spec_limit(),
    {
        match self {
            SizeTier::Small => LIMIT_SMALL,
            SizeTier::Medium => LIMIT_MEDIUM,
            SizeTier::Large => LIMIT_LARGE,
            SizeTier::Huge => LIMIT_HUGE,
        }
    }
}

/// The number of `true` flags among the four.
pub open spec fn selected_count(small: bool, medium: bool, large: bool, huge: bool) -> nat {
    (if small { 1nat } else { 0nat }) + (if medium { 1nat } else { 0nat }) + (if large {
        1nat
    } else {
        0nat
    }) + (if huge { 1nat } else { 0nat })
}

/// Resolves the tier from four mutually exclusive flags. No flag selects the
/// small tier; two or more are a conflict.
pub fn select_tier(small: bool, medium: bool, large: bool, huge: bool) -> (r: Result<
    SizeTier,
    TierError,
>)
    ensures
        selected_count(small, medium, large, huge) > 1 <==> r is Err,
        r is Err ==> r == Err::<SizeTier, TierError>(TierError::Conflicting),
        r is Ok ==> (r->Ok_0 == SizeTier::Medium <==> medium),
        r is Ok ==> (r->Ok_0 == SizeTier::Large <==> large),
        r is Ok ==> (r->Ok_0 == SizeTier::Huge <==> huge),
        r is Ok ==> (r->Ok_0 == SizeTier::Small <==> !medium && !large && !huge),
{
    let count: u8 = (if small { 1u8 } else { 0u8 }) + (if medium { 1u8 } else { 0u8 }) + (if large {
        1u8
    } else {
        0u8
    }) + (if huge { 1u8 } else { 0u8 });
    if count > 1 {
        Err(TierError::Conflicting)
    } else if medium {
        Ok(SizeTier::Medium)
    } else if large {
        Ok(SizeTier::Large)
    } else if huge {
        Ok(SizeTier::Huge)
    } else {
        Ok(SizeTier::Small)
    }
}

/// The arities `0 .. limit` in ascending order.
pub open spec fn arity_range(limit: nat) -> Seq<nat> {
    Seq::new(limit, |i: int| i as nat)
}

/// The arities to generate for `tier`, in ascending order.
pub fn arities(tier: SizeTier) -> (r: Vec<u8>)
    ensures
        r@.len() == tier.spec_limit(),
        forall|i: int| 0 <= i < r@.len() ==> r@[i] == i,
{
    let limit = tier.limit();
    let mut r: Vec<u8> = Vec::new();
    let mut n: u8 = 0;
    while n < limit
        invariant
            n <= limit,
            limit as nat == tier.spec_limit(),
            r@.len() == n,
            forall|i: int| 0 <= i < n ==> r@[i] == i,
        decreases limit - n,
    {
        r.push(n);
        n = n + 1;
    }
    r
}

/// The arities generated for a tier are exactly `0 .. limit`: none is missing
/// and none comes twice.
pub proof fn lemma_arity_coverage(tier: SizeTier)
    ensures
        arity_range(tier.spec_limit()).to_set() == Set::new(|n: nat| n < tier.spec_limit()),
        arity_range(tier.spec_limit()).no_duplicates(),
{
    let s = arity_range(tier.spec_limit());
    assert forall|n: nat| s.to_set().contains(n) <==> n < tier.spec_limit() by {
        if n < tier.spec_limit() {
            assert(s[n as int] == n);
        }
    }
    assert(s.to_set() =~= Set::new(|n: nat| n < tier.spec_limit()));
}

} // verus!
