//! Value-producing strategies attached to rules.

use vstd::prelude::*;
use vstd::string::StringExecFns;

verus! {

/// The backing values of a constant behavior: either a finite queue that
/// hands its elements out front to back and is then exhausted, or a single
/// value repeated on every call, never exhausted.
pub enum ConstValues<O> {
    Queue(Vec<O>),
    Repeat(O),
}

impl<O> ConstValues<O> {
    /// An exhausted cursor has no next value to hand out; handing one out
    /// anyway is a configuration error.
    pub open spec fn spec_exhausted(self) -> bool {
        match self {
            ConstValues::Queue(q) => q@.len() == 0,
            ConstValues::Repeat(_) => false,
        }
    }

    /// The value the next call receives.
    pub open spec fn spec_head(self) -> O
        recommends
            !self.spec_exhausted(),
    {
        match self {
            ConstValues::Queue(q) => q@[0],
            ConstValues::Repeat(v) => v,
        }
    }

    /// How one hand-out changes the cursor: a queue loses its first
    /// element; a repeated value stays as it is.
    pub open spec fn spec_advances_to(self, next: Self) -> bool
        recommends
            !self.spec_exhausted(),
    {
        match self {
            ConstValues::Queue(q) => next matches ConstValues::Queue(q2) && q2@ == q@.drop_first(),
            ConstValues::Repeat(_) => next == self,
        }
    }
}

impl<O> ConstValues<O> {
    /// Decides whether the cursor is exhausted.
    pub fn is_exhausted(&self) -> (r: bool)
        ensures
            r == self.spec_exhausted(),
    {
        match self {
            ConstValues::Queue(q) => q.len() == 0,
            ConstValues::Repeat(_) => false,
        }
    }
}

impl<O: Clone> ConstValues<O> {
    /// Takes the next value under exclusive access: a queue yields its
    /// first element and drops it; a repeated value yields a clone and
    /// keeps the original untouched.
    pub fn next(&mut self) -> (r: O)
        requires
            !old(self).spec_exhausted(),
        ensures
            vstd::pervasive::cloned::<O>(old(self).spec_head(), r),
            old(self).spec_advances_to(*final(self)),
    {
        match self {
            ConstValues::Queue(q) => q.remove(0),
            ConstValues::Repeat(v) => v.clone(),
        }
    }
}

/// Law: a repeated constant value is never consumed. Advancing the
/// cursor leaves it exactly as it was, still unexhausted and still
/// holding the same value, so any number of matching calls each receive
/// a clone of that one unchanged value.
pub proof fn lemma_repeat_idempotent<O>(v: O, next: ConstValues<O>)
    requires
        ConstValues::Repeat(v).spec_advances_to(next),
    ensures
        next == ConstValues::Repeat(v),
        !next.spec_exhausted(),
        next.spec_head() == v,
{
}

/// A rule's strategy for answering a matched call: apply an arbitrary
/// callable to the arguments, hand out the next of a sequence of constant
/// values, or defer to the real implementation.
pub enum Behavior<O, F> {
    Function(F),
    Const(ConstValues<O>),
    CallsRealImpl,
}

impl<O, F> Behavior<O, F> {
    /// The behavior's rendering in diagnostics; what a function behavior
    /// computes, or what values a constant behavior holds, is not
    /// rendered.
    pub open spec fn spec_describe(&self) -> Seq<char> {
        match self {
            Behavior::Function(_) => "Function(_)"@,
            Behavior::Const(_) => "Const(_)"@,
            Behavior::CallsRealImpl => "CallsRealImpl"@,
        }
    }

    /// Renders the behavior for diagnostics.
    pub fn describe(&self) -> (r: String)
        ensures
            r@ == self.spec_describe(),
    {
        match self {
            Behavior::Function(_) => "Function(_)".to_owned(),
            Behavior::Const(_) => "Const(_)".to_owned(),
            Behavior::CallsRealImpl => "CallsRealImpl".to_owned(),
        }
    }

    /// Answers one matched call. A function behavior applies its callable
    /// to the arguments; a constant behavior hands out its next value; a
    /// calls-real-impl behavior produces nothing, which tells the caller
    /// to run the real implementation.
    pub fn called<I>(&mut self, input: I) -> (r: Option<O>) where
        F: Fn(I) -> O,
        O: Clone,

        requires
            *old(self) matches Behavior::Function(f) ==> call_requires(f, (input,)),
            *old(self) matches Behavior::Const(c) ==> !c.spec_exhausted(),
        ensures
            *old(self) matches Behavior::Function(f) ==> {
                &&& *final(self) == *old(self)
                &&& r matches Some(v) && call_ensures(f, (input,), v)
            },
            *old(self) matches Behavior::Const(c) ==> {
                &&& *final(self) matches Behavior::Const(c2) && c.spec_advances_to(c2)
                &&& r matches Some(v) && vstd::pervasive::cloned::<O>(c.spec_head(), v)
            },
            *old(self) matches Behavior::CallsRealImpl ==> {
                &&& *final(self) == *old(self)
                &&& r is None
            },
    {
        match self {
            Behavior::Function(function) => Some(function(input)),
            Behavior::Const(values) => Some(values.next()),
            Behavior::CallsRealImpl => None,
        }
    }
}

impl<O, F> From<F> for Behavior<O, F> {
    /// Wraps a callable as a function behavior.
    fn from(function: F) -> (r: Self) {
        Behavior::Function(function)
    }
}

impl<O, F> vstd::std_specs::convert::FromSpecImpl<F> for Behavior<O, F> {
    open spec fn obeys_from_spec() -> bool {
        true
    }

    open spec fn from_spec(v: F) -> Behavior<O, F> {
        Behavior::Function(v)
    }
}

} // verus!
