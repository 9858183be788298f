//! Predicates over call arguments.
//!
//! A matcher decides whether a rule applies to a given call. A composite
//! matcher for an N-ary argument tuple is itself a tuple of N per-position
//! matchers and accepts a call exactly when every position accepts it; the
//! empty tuple trivially accepts every no-argument call.

use vstd::prelude::*;
use vstd::std_specs::cmp::PartialEqSpec;
use vstd::string::StringExecFns;

use crate::render::debug_repr;

verus! {

/// A predicate deciding whether a rule applies to a given call's arguments.
///
/// `spec_matches` is the mathematical meaning of the predicate; `matches`
/// computes it. The two are known to agree only when `obeys` holds of the
/// matcher: for equality-based matchers that asks the argument type's `==`
/// to be specified as value equality, and for an arbitrary-test matcher it
/// asks the test to decide each input one way only.
pub trait Match<I>: Sized {
    /// Whether `matches` is known to return exactly `spec_matches`.
    spec fn obeys(&self) -> bool;

    /// Which inputs this matcher accepts.
    spec fn spec_matches(&self, input: I) -> bool;

    /// Decides whether the matcher accepts the input. Matchers are pure:
    /// the decision depends on the matcher and the input alone.
    fn matches(&self, input: &I) -> (r: bool)
        ensures
            self.obeys() ==> r == self.spec_matches(*input),
    ;
}

/// A rendering of a matcher for diagnostics, in the shape a derived
/// debug rendering would give it.
///
/// `spec_describes` says which texts are admissible renderings of the
/// value: for the named matchers the text is fixed exactly; for an
/// equality matcher the captured value's own rendering is whatever its
/// debug implementation writes, so only the frame around it is fixed.
pub trait Describe {
    /// Whether `text` is an admissible rendering of this value.
    spec fn spec_describes(&self, text: Seq<char>) -> bool;

    /// Renders the value for diagnostics.
    fn describe(&self) -> (r: String)
        ensures
            self.spec_describes(r@),
    ;
}

/// A matcher over a single argument value: accept everything, accept
/// nothing, or accept exactly the values equal to a captured one.
pub enum Matcher<I> {
    Any,
    Never,
    Eq(I),
}

impl<I: PartialEq> Match<I> for Matcher<I> {
    open spec fn obeys(&self) -> bool {
        I::obeys_eq_spec()
    }

    open spec fn spec_matches(&self, input: I) -> bool {
        match self {
            Matcher::Any => true,
            Matcher::Never => false,
            Matcher::Eq(v) => v.eq_spec(&input),
        }
    }

    fn matches(&self, input: &I) -> (r: bool) {
        match self {
            Matcher::Any => true,
            Matcher::Never => false,
            Matcher::Eq(v) => v == input,
        }
    }
}

impl<I: core::fmt::Debug> Describe for Matcher<I> {
    open spec fn spec_describes(&self, text: Seq<char>) -> bool {
        match self {
            Matcher::Any => text == "Any"@,
            Matcher::Never => text == "Never"@,
            Matcher::Eq(_) => exists|v: Seq<char>| text == #[trigger] ("Eq("@ + v + ")"@),
        }
    }

    fn describe(&self) -> (r: String) {
        match self {
            Matcher::Any => "Any".to_owned(),
            Matcher::Never => "Never".to_owned(),
            Matcher::Eq(v) => {
                let mut s = "Eq(".to_owned();
                let value = debug_repr(v);
                s.append(value.as_str());
                s.append(")");
                proof {
                    assert(s@ == "Eq("@ + value@ + ")"@);
                }
                s
            },
        }
    }
}

impl Match<()> for () {
    open spec fn obeys(&self) -> bool {
        true
    }

    open spec fn spec_matches(&self, input: ()) -> bool {
        true
    }

    fn matches(&self, input: &()) -> (r: bool) {
        true
    }
}

impl Describe for () {
    open spec fn spec_describes(&self, text: Seq<char>) -> bool {
        text == "()"@
    }

    fn describe(&self) -> (r: String) {
        "()".to_owned()
    }
}

impl<A: PartialEq> Match<(A,)> for (Matcher<A>,) {
    open spec fn obeys(&self) -> bool {
        self.0.obeys()
    }

    open spec fn spec_matches(&self, input: (A,)) -> bool {
        self.0.spec_matches(input.0)
    }

    fn matches(&self, input: &(A,)) -> (r: bool) {
        self.0.matches(&input.0)
    }
}

impl<A: core::fmt::Debug> Describe for (Matcher<A>,) {
    open spec fn spec_describes(&self, text: Seq<char>) -> bool {
        exists|a: Seq<char>|
            #[trigger] self.0.spec_describes(a) && text == "("@ + a + ",)"@
    }

    fn describe(&self) -> (r: String) {
        let mut s = "(".to_owned();
        let part = self.0.describe();
        s.append(part.as_str());
        s.append(",)");
        proof {
            assert(s@ == "("@ + part@ + ",)"@);
        }
        s
    }
}

impl<A: PartialEq, B: PartialEq> Match<(A, B)> for (Matcher<A>, Matcher<B>) {
    open spec fn obeys(&self) -> bool {
        self.0.obeys() && self.1.obeys()
    }

    open spec fn spec_matches(&self, input: (A, B)) -> bool {
        self.0.spec_matches(input.0) && self.1.spec_matches(input.1)
    }

    fn matches(&self, input: &(A, B)) -> (r: bool) {
        self.0.matches(&input.0) && self.1.matches(&input.1)
    }
}

impl<A: core::fmt::Debug, B: core::fmt::Debug> Describe for (Matcher<A>, Matcher<B>) {
    open spec fn spec_describes(&self, text: Seq<char>) -> bool {
        exists|a: Seq<char>, b: Seq<char>|
            #[trigger] self.0.spec_describes(a) && #[trigger] self.1.spec_describes(b) && text
                == "("@ + a + ", "@ + b + ")"@
    }

    fn describe(&self) -> (r: String) {
        let mut s = "(".to_owned();
        let first = self.0.describe();
        s.append(first.as_str());
        s.append(", ");
        let second = self.1.describe();
        s.append(second.as_str());
        s.append(")");
        proof {
            assert(s@ == "("@ + first@ + ", "@ + second@ + ")"@);
        }
        s
    }
}

impl<A: PartialEq, B: PartialEq, C: PartialEq> Match<(A, B, C)> for (
    Matcher<A>,
    Matcher<B>,
    Matcher<C>,
) {
    open spec fn obeys(&self) -> bool {
        self.0.obeys() && self.1.obeys() && self.2.obeys()
    }

    open spec fn spec_matches(&self, input: (A, B, C)) -> bool {
        self.0.spec_matches(input.0) && self.1.spec_matches(input.1) && self.2.spec_matches(
            input.2,
        )
    }

    fn matches(&self, input: &(A, B, C)) -> (r: bool) {
        self.0.matches(&input.0) && self.1.matches(&input.1) && self.2.matches(&input.2)
    }
}

impl<A: core::fmt::Debug, B: core::fmt::Debug, C: core::fmt::Debug> Describe for (
    Matcher<A>,
    Matcher<B>,
    Matcher<C>,
) {
    open spec fn spec_describes(&self, text: Seq<char>) -> bool {
        exists|a: Seq<char>, b: Seq<char>, c: Seq<char>|
            #[trigger] self.0.spec_describes(a) && #[trigger] self.1.spec_describes(b) && #[trigger] self.2.spec_describes(c) && text == "("@ + a + ", "@ + b + ", "@ + c + ")"@
    }

    fn describe(&self) -> (r: String) {
        let mut s = "(".to_owned();
        let first = self.0.describe();
        s.append(first.as_str());
        s.append(", ");
        let second = self.1.describe();
        s.append(second.as_str());
        s.append(", ");
        let third = self.2.describe();
        s.append(third.as_str());
        s.append(")");
        proof {
            assert(s@ == "("@ + first@ + ", "@ + second@ + ", "@ + third@ + ")"@);
        }
        s
    }
}

impl<A: PartialEq, B: PartialEq, C: PartialEq, D: PartialEq> Match<(A, B, C, D)> for (
    Matcher<A>,
    Matcher<B>,
    Matcher<C>,
    Matcher<D>,
) {
    open spec fn obeys(&self) -> bool {
        self.0.obeys() && self.1.obeys() && self.2.obeys() && self.3.obeys()
    }

    open spec fn spec_matches(&self, input: (A, B, C, D)) -> bool {
        self.0.spec_matches(input.0) && self.1.spec_matches(input.1) && self.2.spec_matches(input.2) && self.3.spec_matches(input.3)
    }

    fn matches(&self, input: &(A, B, C, D)) -> (r: bool) {
        self.0.matches(&input.0) && self.1.matches(&input.1) && self.2.matches(&input.2) && self.3.matches(&input.3)
    }
}

impl<A: core::fmt::Debug, B: core::fmt::Debug, C: core::fmt::Debug, D: core::fmt::Debug> Describe for (
    Matcher<A>,
    Matcher<B>,
    Matcher<C>,
    Matcher<D>,
) {
    open spec fn spec_describes(&self, text: Seq<char>) -> bool {
        exists|a: Seq<char>, b: Seq<char>, c: Seq<char>, d: Seq<char>|
            #[trigger] self.0.spec_describes(a) && #[trigger] self.1.spec_describes(b) && #[trigger] self.2.spec_describes(c) && #[trigger] self.3.spec_describes(d) && text == "("@ + a + ", "@ + b + ", "@ + c + ", "@ + d + ")"@
    }

    fn describe(&self) -> (r: String) {
        let mut s = "(".to_owned();
        let first = self.0.describe();
        s.append(first.as_str());
        s.append(", ");
        let second = self.1.describe();
        s.append(second.as_str());
        s.append(", ");
        let third = self.2.describe();
        s.append(third.as_str());
        s.append(", ");
        let fourth = self.3.describe();
        s.append(fourth.as_str());
        s.append(")");
        proof {
            assert(s@ == "("@ + first@ + ", "@ + second@ + ", "@ + third@ + ", "@ + fourth@ + ")"@);
        }
        s
    }
}

impl<A: PartialEq, B: PartialEq, C: PartialEq, D: PartialEq, E: PartialEq> Match<(A, B, C, D, E)> for (
    Matcher<A>,
    Matcher<B>,
    Matcher<C>,
    Matcher<D>,
    Matcher<E>,
) {
    open spec fn obeys(&self) -> bool {
        self.0.obeys() && self.1.obeys() && self.2.obeys() && self.3.obeys() && self.4.obeys()
    }

    open spec fn spec_matches(&self, input: (A, B, C, D, E)) -> bool {
        self.0.spec_matches(input.0) && self.1.spec_matches(input.1) && self.2.spec_matches(input.2) && self.3.spec_matches(input.3) && self.4.spec_matches(input.4)
    }

    fn matches(&self, input: &(A, B, C, D, E)) -> (r: bool) {
        self.0.matches(&input.0) && self.1.matches(&input.1) && self.2.matches(&input.2) && self.3.matches(&input.3) && self.4.matches(&input.4)
    }
}

impl<A: core::fmt::Debug, B: core::fmt::Debug, C: core::fmt::Debug, D: core::fmt::Debug, E: core::fmt::Debug> Describe for (
    Matcher<A>,
    Matcher<B>,
    Matcher<C>,
    Matcher<D>,
    Matcher<E>,
) {
    open spec fn spec_describes(&self, text: Seq<char>) -> bool {
        exists|a: Seq<char>, b: Seq<char>, c: Seq<char>, d: Seq<char>, e: Seq<char>|
            #[trigger] self.0.spec_describes(a) && #[trigger] self.1.spec_describes(b) && #[trigger] self.2.spec_describes(c) && #[trigger] self.3.spec_describes(d) && #[trigger] self.4.spec_describes(e) && text == "("@ + a + ", "@ + b + ", "@ + c + ", "@ + d + ", "@ + e + ")"@
    }

    fn describe(&self) -> (r: String) {
        let mut s = "(".to_owned();
        let first = self.0.describe();
        s.append(first.as_str());
        s.append(", ");
        let second = self.1.describe();
        s.append(second.as_str());
        s.append(", ");
        let third = self.2.describe();
        s.append(third.as_str());
        s.append(", ");
        let fourth = self.3.describe();
        s.append(fourth.as_str());
        s.append(", ");
        let fifth = self.4.describe();
        s.append(fifth.as_str());
        s.append(")");
        proof {
            assert(s@ == "("@ + first@ + ", "@ + second@ + ", "@ + third@ + ", "@ + fourth@ + ", "@ + fifth@ + ")"@);
        }
        s
    }
}

/// A matcher from an arbitrary test over the argument value.
///
/// The test must accept every input — `new` asks for that once, and the
/// type invariant keeps it — so `matches` can always run it. Which
/// inputs the matcher accepts is, to the contracts, the set of inputs on
/// which the test's own postcondition allows `true`; `obeys` holds when
/// the postcondition decides each input one way only, and the set is
/// then exactly the test's decision.
pub struct Predicate<I, G> where G: Fn(&I) -> bool {
    test: G,
    input: core::marker::PhantomData<I>,
}

impl<I, G: Fn(&I) -> bool> Predicate<I, G> {
    /// The stored test.
    pub closed spec fn spec_test(&self) -> G {
        self.test
    }

    #[verifier::type_invariant]
    spec fn total(self) -> bool {
        forall|x: I| call_requires(self.test, (&x,))
    }

    /// Wraps a test that accepts every input.
    pub fn new(test: G) -> (r: Self)
        requires
            forall|x: I| call_requires(test, (&x,)),
        ensures
            r.spec_test() == test,
    {
        Predicate { test, input: core::marker::PhantomData }
    }
}

impl<I, G: Fn(&I) -> bool> Match<I> for Predicate<I, G> {
    open spec fn obeys(&self) -> bool {
        forall|x: I, b1: bool, b2: bool|
            #[trigger] call_ensures(self.spec_test(), (&x,), b1) && #[trigger] call_ensures(
                self.spec_test(),
                (&x,),
                b2,
            ) ==> b1 == b2
    }

    open spec fn spec_matches(&self, input: I) -> bool {
        call_ensures(self.spec_test(), (&input,), true)
    }

    fn matches(&self, input: &I) -> (r: bool) {
        proof {
            use_type_invariant(self);
        }
        let r = (self.test)(input);
        proof {
            if self.obeys() {
                assert(call_ensures(self.test, (input,), r));
                if !r {
                    assert(!call_ensures(self.spec_test(), (input,), true));
                }
            }
        }
        r
    }
}

/// The meaning of a predicate matcher, stated as a lemma: it accepts
/// exactly the inputs on which the test's postcondition allows `true`,
/// and it obeys exactly when the postcondition decides each input one
/// way only. Stated of a concrete matcher, this connects `spec_matches`
/// and `obeys` to the facts a caller holds about its own callable.
pub proof fn lemma_predicate_meaning<I, G: Fn(&I) -> bool>(p: &Predicate<I, G>, input: I)
    ensures
        p.spec_matches(input) == call_ensures(p.spec_test(), (&input,), true),
        p.obeys() == (forall|x: I, b1: bool, b2: bool|
            #[trigger] call_ensures(p.spec_test(), (&x,), b1) && #[trigger] call_ensures(
                p.spec_test(),
                (&x,),
                b2,
            ) ==> b1 == b2),
{
}

impl<I, G: Fn(&I) -> bool> Describe for Predicate<I, G> {
    open spec fn spec_describes(&self, text: Seq<char>) -> bool {
        text == "Predicate(_)"@
    }

    fn describe(&self) -> (r: String) {
        "Predicate(_)".to_owned()
    }
}

} // verus!
