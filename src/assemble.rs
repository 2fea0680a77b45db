use vstd::prelude::*;
use vstd::string::StringExecFns;

use crate::emit::{
    borrow_conversion_text, borrow_test_text, conversion_text, generate_one,
    generate_one_borrow, generate_one_borrow_test, generate_one_test, owned_test_text,
};
use crate::tier::{arities, arity_range, SizeTier};

verus! {

/// The declarations that open the generated library: the sealing marker and
/// the public conversion trait, with its arity, element and tuple parameters.
pub const LIB_HEADER: &'static str = "mod generated_tests;\n\n/// To ensure clashing implementations cannot be created.\ntrait Sealed {}\n\n/// Converts a fixed-size array into a tuple of the same dimension.\n#[allow(private_bounds)]\npub trait IntoTuple<const N: usize, E, T> : Sealed {\n    /// Returns a tuple of the same dimension as the passed array.\n    fn into_tuple(self) -> T;\n}\n";

/// The line that opens the generated implementations.
pub const IMPLS_MARKER: &'static str = "\n// Generated implementations:\n\n";

/// The lines that open the generated test module.
pub const TESTS_HEADER: &'static str = "#![cfg(test)]\n\nuse super::IntoTuple;\n";

/// The owned conversions for the arities `arities`, in their order.
pub open spec fn conversions(arities: Seq<nat>) -> Seq<char>
    decreases arities.len(),
{
    if arities.len() == 0 {
        Seq::empty()
    } else {
        conversions(arities.drop_last()) + conversion_text(arities.last())
    }
}

/// The borrowed conversions for the arities `arities`, in their order.
pub open spec fn borrow_conversions(arities: Seq<nat>) -> Seq<char>
    decreases arities.len(),
{
    if arities.len() == 0 {
        Seq::empty()
    } else {
        borrow_conversions(arities.drop_last()) + borrow_conversion_text(arities.last())
    }
}

/// For each arity in turn, its owned test and then its borrowed test.
pub open spec fn test_cases(arities: Seq<nat>) -> Seq<char>
    decreases arities.len(),
{
    if arities.len() == 0 {
        Seq::empty()
    } else {
        test_cases(arities.drop_last()) + owned_test_text(arities.last()) + borrow_test_text(
            arities.last(),
        )
    }
}

/// The generated library for `tier`: the header, then every owned conversion,
/// then every borrowed one, in ascending arity.
pub open spec fn lib_text(tier: SizeTier) -> Seq<char> {
    LIB_HEADER@ + IMPLS_MARKER@ + conversions(arity_range(tier.spec_limit())) + borrow_conversions(
        arity_range(tier.spec_limit()),
    )
}

/// The generated test module for `tier`.
pub open spec fn tests_text(tier: SizeTier) -> Seq<char> {
    TESTS_HEADER@ + test_cases(arity_range(tier.spec_limit()))
}

proof fn lemma_range_step(n: nat)
    ensures
        arity_range(n + 1).drop_last() == arity_range(n),
        arity_range(n + 1).last() == n,
        arity_range(n + 1).len() > 0,
{
    assert(arity_range(n + 1).drop_last() =~= arity_range(n));
}

/// The text of the generated library for `tier`.
pub fn generate_lib(tier: SizeTier) -> (r: String)
    ensures
        r@ == lib_text(tier),
{
    let ns = arities(tier);
    let mut r = String::from_str(LIB_HEADER);
    r.append(IMPLS_MARKER);
    let ghost head = r@;
    let mut i: usize = 0;
    while i < ns.len()
        invariant
            i <= ns@.len(),
            ns@.len() == tier.spec_limit(),
            forall|j: int| 0 <= j < ns@.len() ==> ns@[j] == j,
            r@ == head + conversions(arity_range(i as nat)),
        decreases ns@.len() - i,
    {
        let case = generate_one(ns[i]);
        r.append(case.as_str());
        proof {
            lemma_range_step(i as nat);
        }
        i = i + 1;
        assert(r@ =~= head + conversions(arity_range(i as nat)));
    }
    let ghost middle = r@;
    let mut i: usize = 0;
    assert(borrow_conversions(arity_range(0)) =~= Seq::empty());
    while i < ns.len()
        invariant
            i <= ns@.len(),
            ns@.len() == tier.spec_limit(),
            forall|j: int| 0 <= j < ns@.len() ==> ns@[j] == j,
            r@ == middle + borrow_conversions(arity_range(i as nat)),
        decreases ns@.len() - i,
    {
        let case = generate_one_borrow(ns[i]);
        r.append(case.as_str());
        proof {
            lemma_range_step(i as nat);
        }
        i = i + 1;
        assert(r@ =~= middle + borrow_conversions(arity_range(i as nat)));
    }
    r
}

/// The text of the generated test module for `tier`.
pub fn generate_tests(tier: SizeTier) -> (r: String)
    ensures
        r@ == tests_text(tier),
{
    let ns = arities(tier);
    let mut r = String::from_str(TESTS_HEADER);
    let ghost head = r@;
    let mut i: usize = 0;
    while i < ns.len()
        invariant
            i <= ns@.len(),
            ns@.len() == tier.spec_limit(),
            forall|j: int| 0 <= j < ns@.len() ==> ns@[j] == j,
            r@ == head + test_cases(arity_range(i as nat)),
        decreases ns@.len() - i,
    {
        let case = generate_one_test(ns[i]);
        r.append(case.as_str());
        let case = generate_one_borrow_test(ns[i]);
        r.append(case.as_str());
        proof {
            lemma_range_step(i as nat);
        }
        i = i + 1;
        assert(r@ =~= head + test_cases(arity_range(i as nat)));
    }
    r
}

/// Generation is deterministic: two runs for the same tier give the same
/// library text and the same test text.
pub proof fn lemma_generation_deterministic(
    tier: SizeTier,
    lib1: String,
    lib2: String,
    tests1: String,
    tests2: String,
)
    requires
        lib1@ == lib_text(tier),
        lib2@ == lib_text(tier),
        tests1@ == tests_text(tier),
        tests2@ == tests_text(tier),
    ensures
        lib1@ == lib2@,
        tests1@ == tests2@,
{
}

} // verus!
