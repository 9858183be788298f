//! The append-only, order-preserving record of calls to one mock.

use vstd::prelude::*;
use vstd::pervasive::cloned;
use vstd::string::StringExecFns;

use crate::clone_spec::faithful_clone;
use crate::matcher::Match;
use crate::matcher::Matcher;
use crate::render::debug_repr;
use crate::render::spec_joined;

verus! {

/// The entries of `entries` that `matcher` accepts, in their original
/// relative order, duplicates kept.
pub open spec fn spec_filter<I, M: Match<I>>(entries: Seq<I>, matcher: M) -> Seq<I>
    decreases entries.len(),
{
    if entries.len() == 0 {
        Seq::empty()
    } else {
        let rest = spec_filter(entries.drop_last(), matcher);
        if matcher.spec_matches(entries.last()) {
            rest.push(entries.last())
        } else {
            rest
        }
    }
}

/// Law: `Matcher::Any` accepts every input, so filtering a log with it
/// keeps every entry in its original order — an assertion with `Any`
/// replays the whole log, its length the number of dispatched calls.
pub proof fn lemma_filter_any<I: PartialEq>(entries: Seq<I>)
    ensures
        spec_filter(entries, Matcher::<I>::Any) == entries,
    decreases entries.len(),
{
    if entries.len() == 0 {
        assert(spec_filter(entries, Matcher::<I>::Any) =~= entries);
    } else {
        lemma_filter_any::<I>(entries.drop_last());
        assert(spec_filter(entries, Matcher::<I>::Any) =~= entries);
    }
}

/// The ordered record of every argument value ever passed to one mock:
/// insertion order preserved, duplicates allowed.
#[derive(Debug, PartialEq)]
pub struct Logs<I>(pub Vec<I>);

impl<I> View for Logs<I> {
    type V = Seq<I>;

    open spec fn view(&self) -> Seq<I> {
        self.0@
    }
}

impl<I> Logs<I> {
    /// Appends one call's arguments at the end.
    pub fn push(&mut self, input: I)
        ensures
            final(self)@ == old(self)@.push(input),
    {
        self.0.push(input);
    }

    /// Whether no call has been recorded.
    pub fn is_empty(&self) -> (r: bool)
        ensures
            r == (self@.len() == 0),
    {
        self.0.is_empty()
    }

    /// The number of recorded calls.
    pub fn len(&self) -> (r: usize)
        ensures
            r == self@.len(),
    {
        self.0.len()
    }
}

impl<I: Clone> Logs<I> {
    /// The new log holding exactly the entries the matcher accepts, in
    /// their original order. Entries are cloned into the result; where
    /// clones are faithful the result is exactly the filtered sequence.
    pub fn filter_matches<M: Match<I>>(&self, matcher: &M) -> (r: Logs<I>)
        requires
            matcher.obeys(),
        ensures
            r@.len() == spec_filter(self@, *matcher).len(),
            forall|j: int|
                0 <= j < r@.len() ==> cloned::<I>(
                    spec_filter(self@, *matcher)[j],
                    #[trigger] r@[j],
                ),
            faithful_clone::<I>() ==> r@ == spec_filter(self@, *matcher),
    {
        let mut kept: Vec<I> = Vec::new();
        let mut i: usize = 0;
        while i < self.0.len()
            invariant
                matcher.obeys(),
                i <= self.0.len(),
                kept@.len() == spec_filter(self.0@.subrange(0, i as int), *matcher).len(),
                forall|j: int|
                    0 <= j < kept@.len() ==> cloned::<I>(
                        spec_filter(self.0@.subrange(0, i as int), *matcher)[j],
                        #[trigger] kept@[j],
                    ),
            decreases self.0.len() - i,
        {
            let ghost prefix = self.0@.subrange(0, i as int);
            let ghost extended = self.0@.subrange(0, i as int + 1);
            proof {
                assert(extended.drop_last() =~= prefix);
                assert(extended.last() == self.0@[i as int]);
            }
            if matcher.matches(&self.0[i]) {
                kept.push(self.0[i].clone());
            }
            i += 1;
        }
        proof {
            assert(self.0@.subrange(0, self.0@.len() as int) =~= self.0@);
            if faithful_clone::<I>() {
                assert(kept@ =~= spec_filter(self@, *matcher));
            }
        }
        Logs(kept)
    }
}

/// Which texts are admissible renderings of a log with `entries` calls:
/// one rendering per recorded call, in call order, joined by a comma and
/// a space between one pair of brackets. What each call's own rendering
/// reads is up to its debug implementation, so only the count and the
/// list shape are fixed.
pub open spec fn spec_log_dump(entries: nat, text: Seq<char>) -> bool {
    exists|parts: Seq<Seq<char>>|
        #![trigger spec_joined(parts)]
        {
            &&& parts.len() == entries
            &&& text == "["@ + spec_joined(parts) + "]"@
        }
}

impl<I: core::fmt::Debug> Logs<I> {
    /// The log rendered like a list for diagnostics: every recorded
    /// call, in call order, between one pair of brackets.
    pub fn repr(&self) -> (r: String)
        ensures
            spec_log_dump(self@.len(), r@),
            self@.len() == 0 ==> r@ == "[]"@,
    {
        let mut s = "[".to_owned();
        let ghost mut parts: Seq<Seq<char>> = Seq::empty();
        proof {
            assert(s@ == "["@ + spec_joined(parts)) by {
                assert("["@ + spec_joined(parts) =~= "["@);
            }
        }
        let mut i: usize = 0;
        while i < self.0.len()
            invariant
                i <= self.0.len(),
                parts.len() == i,
                s@ == "["@ + spec_joined(parts),
            decreases self.0.len() - i,
        {
            if i > 0 {
                s.append(", ");
            }
            let entry = debug_repr(&self.0[i]);
            s.append(entry.as_str());
            proof {
                let extended = parts.push(entry@);
                assert(extended.drop_last() =~= parts);
                assert(extended.last() == entry@);
                if i == 0 {
                    assert(s@ =~= "["@ + spec_joined(extended));
                } else {
                    assert(s@ =~= "["@ + spec_joined(extended));
                }
                parts = extended;
            }
            i += 1;
        }
        s.append("]");
        proof {
            assert(s@ == "["@ + spec_joined(parts) + "]"@);
            if self@.len() == 0 {
                reveal_strlit("[");
                reveal_strlit("]");
                reveal_strlit("[]");
                assert(s@ =~= "[]"@);
            }
        }
        s
    }
}

impl<I> Default for Logs<I> {
    /// The empty log.
    fn default() -> (r: Self)
        ensures
            r@ == Seq::<I>::empty(),
    {
        Logs(Vec::new())
    }
}

} // verus!
