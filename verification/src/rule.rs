//! An ordered (matcher, behavior) pair.

use vstd::prelude::*;
use vstd::string::StringExecFns;

use crate::behavior::Behavior;
use crate::matcher::Describe;
use crate::render::spec_joined;

verus! {

/// A rule pairs a matcher with a behavior. A mock scans its rules in
/// registration order and acts on the first one whose matcher accepts the
/// call; registration order, not specificity, is match priority.
pub struct Rule<M, O, F> {
    pub matcher: M,
    pub behavior: Behavior<O, F>,
}

impl<M: Describe, O, F> Rule<M, O, F> {
    /// Which texts are admissible renderings of the rule: the fixed
    /// frame around an admissible rendering of the matcher and the
    /// behavior's exact rendering.
    pub open spec fn spec_describes(&self, text: Seq<char>) -> bool {
        exists|m: Seq<char>|
            #[trigger] self.matcher.spec_describes(m) && text == "Rule { matcher: "@ + m
                + ", behavior: "@ + self.behavior.spec_describe() + " }"@
    }

    /// Renders the rule for diagnostics, pairing the matcher's
    /// description with the behavior's.
    pub fn describe(&self) -> (r: String)
        ensures
            self.spec_describes(r@),
    {
        let mut s = "Rule { matcher: ".to_owned();
        let matcher_part = self.matcher.describe();
        s.append(matcher_part.as_str());
        s.append(", behavior: ");
        let behavior_part = self.behavior.describe();
        s.append(behavior_part.as_str());
        s.append(" }");
        proof {
            assert(s@ == "Rule { matcher: "@ + matcher_part@ + ", behavior: "@
                + self.behavior.spec_describe() + " }"@);
        }
        s
    }
}

/// Which texts are admissible renderings of a whole rule list: one
/// admissible rendering per rule, in registration order, joined by a
/// comma and a space between one pair of brackets.
pub open spec fn spec_rules_dump<M: Describe, O, F>(
    rules: Seq<Rule<M, O, F>>,
    text: Seq<char>,
) -> bool {
    exists|parts: Seq<Seq<char>>|
        #![trigger spec_joined(parts)]
        {
            &&& parts.len() == rules.len()
            &&& forall|j: int| 0 <= j < parts.len() ==> rules[j].spec_describes(#[trigger] parts[j])
            &&& text == "["@ + spec_joined(parts) + "]"@
        }
}

} // verus!
