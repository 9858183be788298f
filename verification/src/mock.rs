//! The per-function dispatch unit: rules, call log, and assertions.

use vstd::prelude::*;
use vstd::pervasive::cloned;

use crate::behavior::Behavior;
use crate::behavior::ConstValues;
use crate::clone_spec::faithful_clone;
use crate::logs::spec_filter;
use crate::logs::spec_log_dump;
use crate::logs::Logs;
use crate::matcher::Describe;
use crate::matcher::Match;
use crate::matcher::Matcher;
use crate::mock_result::MockResult;
use crate::render::spec_joined;
use crate::rule::spec_rules_dump;
use crate::rule::Rule;
use vstd::string::StringExecFns;

verus! {

/// The least index at or after `i` of a rule whose matcher accepts
/// `input`, or the list's length if no such rule exists.
pub open spec fn spec_first_match_from<I, M: Match<I>, O, F>(
    rules: Seq<Rule<M, O, F>>,
    input: I,
    i: int,
) -> int
    decreases rules.len() - i,
{
    if i < 0 || i >= rules.len() {
        rules.len() as int
    } else if rules[i].matcher.spec_matches(input) {
        i
    } else {
        spec_first_match_from(rules, input, i + 1)
    }
}

/// The index of the first rule, in registration order, whose matcher
/// accepts `input`; the list's length if none does.
pub open spec fn spec_first_match<I, M: Match<I>, O, F>(
    rules: Seq<Rule<M, O, F>>,
    input: I,
) -> int {
    spec_first_match_from(rules, input, 0)
}

proof fn lemma_first_match_from<I, M: Match<I>, O, F>(
    rules: Seq<Rule<M, O, F>>,
    input: I,
    i: int,
)
    requires
        0 <= i <= rules.len(),
    ensures
        ({
            let k = spec_first_match_from(rules, input, i);
            &&& i <= k <= rules.len()
            &&& k < rules.len() ==> rules[k].matcher.spec_matches(input)
            &&& forall|j: int|
                i <= j < k ==> !(#[trigger] rules[j].matcher.spec_matches(input))
        }),
    decreases rules.len() - i,
{
    if i < rules.len() && !rules[i].matcher.spec_matches(input) {
        lemma_first_match_from(rules, input, i + 1);
    }
}

/// Law: dispatch priority is registration order. The first-match index is
/// in bounds, its rule's matcher accepts the call, and no earlier rule's
/// matcher does — so a later rule that would also match is never the one
/// acted on; when the index equals the list's length, no rule matches at
/// all.
pub proof fn lemma_first_match<I, M: Match<I>, O, F>(rules: Seq<Rule<M, O, F>>, input: I)
    ensures
        ({
            let k = spec_first_match(rules, input);
            &&& 0 <= k <= rules.len()
            &&& k < rules.len() ==> rules[k].matcher.spec_matches(input)
            &&& forall|j: int|
                0 <= j < k ==> !(#[trigger] rules[j].matcher.spec_matches(input))
        }),
{
    lemma_first_match_from(rules, input, 0);
}

/// Law: `Matcher::Never` accepts no input, so in a rule list whose
/// matchers are all `Never` no rule ever matches: dispatching any input
/// finds no rule, which is the unconfigured-call failure, not a deferral.
pub proof fn lemma_never_rules<I: PartialEq, O, F>(
    rules: Seq<Rule<Matcher<I>, O, F>>,
    input: I,
)
    requires
        forall|j: int| 0 <= j < rules.len() ==> (#[trigger] rules[j].matcher) is Never,
    ensures
        spec_first_match(rules, input) == rules.len(),
{
    lemma_first_match(rules, input);
}

/// Whether dispatching `input` against `rules` is a fatal
/// misconfiguration: either no rule's matcher accepts the call, or the
/// first accepting rule's behavior is an exhausted constant queue.
pub open spec fn spec_dispatch_fatal<I, M: Match<I>, O, F>(
    rules: Seq<Rule<M, O, F>>,
    input: I,
) -> bool {
    let k = spec_first_match(rules, input);
    ||| k == rules.len()
    ||| (rules[k].behavior matches Behavior::Const(c) && c.spec_exhausted())
}

/// Whether every rule's matcher in the list is one whose `matches` is
/// known to compute `spec_matches`; dispatch consults matchers in order,
/// so its contract asks this of the whole list.
pub open spec fn spec_matchers_obey<I, M: Match<I>, O, F>(rules: Seq<Rule<M, O, F>>) -> bool {
    forall|j: int| 0 <= j < rules.len() ==> (#[trigger] rules[j]).matcher.obeys()
}

/// One mock: the dispatch unit for one intercepted function. Owns a
/// display name, the append-only call log, and the ordered rule list.
pub struct Mock<I, O, M, F> {
    pub name: &'static str,
    logs: Logs<I>,
    rules: Vec<Rule<M, O, F>>,
}

/// The dispatch and assertion surface of a mock.
///
/// On every dispatched call the log grows by exactly that call, and the
/// first rule, in registration order, whose matcher accepts the call
/// decides the outcome: a produced substitute value, or deferral to the
/// real implementation.
pub trait MockObject<I, O, M, F> where I: Clone, O: Clone, M: Match<I>, F: Fn(I) -> O {
    /// The mock's display name.
    spec fn spec_name(&self) -> Seq<char>;

    /// The recorded calls, in call order.
    spec fn spec_logs(&self) -> Seq<I>;

    /// The registered rules, in registration order.
    spec fn spec_rules(&self) -> Seq<Rule<M, O, F>>;

    /// Appends the call to the log, then scans the rules in registration
    /// order and acts on the first whose matcher accepts it: a function
    /// behavior produces the callable's result, a constant behavior hands
    /// out its next value, and a calls-real-impl behavior yields `None`,
    /// deferring to the real implementation. Later rules are never
    /// consulted. A call no rule matches, or one that drains an exhausted
    /// constant queue, is a misconfiguration the caller must rule out.
    fn record_call_and_find_mock_output(&mut self, input: I) -> (r: Option<O>)
        requires
            spec_matchers_obey(old(self).spec_rules()),
            spec_first_match(old(self).spec_rules(), input) < old(self).spec_rules().len(),
            old(self).spec_rules()[spec_first_match(old(self).spec_rules(), input)].behavior
                matches Behavior::Function(f) ==> call_requires(f, (input,)),
            old(self).spec_rules()[spec_first_match(old(self).spec_rules(), input)].behavior
                matches Behavior::Const(c) ==> !c.spec_exhausted(),
        ensures
            final(self).spec_name() == old(self).spec_name(),
            final(self).spec_logs().len() == old(self).spec_logs().len() + 1,
            exists|logged: I|
                #[trigger] cloned::<I>(input, logged) && final(self).spec_logs() == old(
                    self,
                ).spec_logs().push(logged),
            faithful_clone::<I>() ==> final(self).spec_logs() == old(self).spec_logs().push(
                input,
            ),
            ({
                let rules = old(self).spec_rules();
                let k = spec_first_match(rules, input);
                &&& (rules[k].behavior matches Behavior::Function(f) ==> {
                    &&& final(self).spec_rules() == rules
                    &&& r matches Some(v) && call_ensures(f, (input,), v)
                })
                &&& (rules[k].behavior matches Behavior::Const(c) ==> {
                    &&& final(self).spec_rules().len() == rules.len()
                    &&& forall|j: int|
                        0 <= j < rules.len() && j != k ==> final(self).spec_rules()[j] == rules[j]
                    &&& final(self).spec_rules()[k].matcher == rules[k].matcher
                    &&& final(self).spec_rules()[k].behavior matches Behavior::Const(c2)
                        && c.spec_advances_to(c2)
                    &&& r matches Some(v) && cloned::<O>(c.spec_head(), v)
                    &&& faithful_clone::<O>() ==> r == Some(c.spec_head())
                })
                &&& (rules[k].behavior matches Behavior::CallsRealImpl ==> {
                    &&& final(self).spec_rules() == rules
                    &&& r is None
                })
            }),
    ;

    /// Appends a rule pairing `matcher` with `behavior` at the end of the
    /// rule list; nothing else changes.
    fn returns_with(&mut self, matcher: M, behavior: Behavior<O, F>)
        ensures
            final(self).spec_name() == old(self).spec_name(),
            final(self).spec_logs() == old(self).spec_logs(),
            final(self).spec_rules() == old(self).spec_rules().push(
                (Rule { matcher, behavior }),
            ),
    ;

    /// Appends a rule that explicitly defers matching calls to the real
    /// implementation; nothing else changes.
    fn calls_real_impl(&mut self, matcher: M)
        ensures
            final(self).spec_name() == old(self).spec_name(),
            final(self).spec_logs() == old(self).spec_logs(),
            final(self).spec_rules() == old(self).spec_rules().push(
                (Rule { matcher, behavior: Behavior::CallsRealImpl }),
            ),
    ;

    /// Replays the log through `matcher` and hands back the matched
    /// subsequence, in call order, together with the mock's name. A
    /// matcher that accepts no recorded call is an assertion failure the
    /// caller must rule out.
    fn assert_called(&self, matcher: M) -> (r: MockResult<I>)
        requires
            matcher.obeys(),
            spec_filter(self.spec_logs(), matcher).len() > 0,
        ensures
            r.name@ == self.spec_name(),
            r.logs@.len() == spec_filter(self.spec_logs(), matcher).len(),
            forall|j: int|
                0 <= j < r.logs@.len() ==> cloned::<I>(
                    spec_filter(self.spec_logs(), matcher)[j],
                    #[trigger] r.logs@[j],
                ),
            faithful_clone::<I>() ==> r.logs@ == spec_filter(self.spec_logs(), matcher),
    ;
}

/// Registration of an always-the-same-value rule; separate from
/// `MockObject` because it needs the output type to be cloneable.
pub trait MockObjectReturns<I, O, M, F>: MockObject<I, O, M, F> where
    I: Clone,
    O: Clone,
    M: Match<I>,
    F: Fn(I) -> O,
 {
    /// Appends a rule that answers every matching call with `ret`,
    /// however often it is dispatched; nothing else changes.
    fn returns_value(&mut self, matcher: M, ret: O)
        ensures
            final(self).spec_name() == old(self).spec_name(),
            final(self).spec_logs() == old(self).spec_logs(),
            final(self).spec_rules() == old(self).spec_rules().push(
                (Rule { matcher, behavior: Behavior::Const(ConstValues::Repeat(ret)) }),
            ),
    ;
}

impl<I, O, M: Match<I>, F: Fn(I) -> O> Mock<I, O, M, F> {
    /// A fresh mock with the given display name, an empty log, and no
    /// rules.
    pub fn new(name: &'static str) -> (r: Self) where I: Clone, O: Clone
        ensures
            r.spec_name() == name@,
            r.spec_logs() == Seq::<I>::empty(),
            r.spec_rules() == Seq::<Rule<M, O, F>>::empty(),
    {
        Mock { name, logs: Logs(Vec::new()), rules: Vec::new() }
    }
}

impl<I: Clone, O: Clone, M: Match<I> + Describe, F: Fn(I) -> O> Mock<I, O, M, F> {
    /// The rule list rendered for diagnostics, in registration order.
    fn rules_repr(&self) -> (r: String)
        ensures
            spec_rules_dump(self.spec_rules(), r@),
            self.spec_rules().len() == 0 ==> r@ == "[]"@,
    {
        let mut s = "[".to_owned();
        let ghost mut parts: Seq<Seq<char>> = Seq::empty();
        proof {
            assert(s@ == "["@ + spec_joined(parts)) by {
                assert("["@ + spec_joined(parts) =~= "["@);
            }
        }
        let mut i: usize = 0;
        while i < self.rules.len()
            invariant
                i <= self.rules.len(),
                parts.len() == i,
                forall|j: int|
                    0 <= j < i ==> self.rules@[j].spec_describes(#[trigger] parts[j]),
                s@ == "["@ + spec_joined(parts),
            decreases self.rules.len() - i,
        {
            if i > 0 {
                s.append(", ");
            }
            let entry = self.rules[i].describe();
            s.append(entry.as_str());
            proof {
                let extended = parts.push(entry@);
                assert(extended.drop_last() =~= parts);
                assert(extended.last() == entry@);
                assert(s@ =~= "["@ + spec_joined(extended));
                parts = extended;
            }
            i += 1;
        }
        s.append("]");
        proof {
            assert(s@ == "["@ + spec_joined(parts) + "]"@);
            if self.spec_rules().len() == 0 {
                reveal_strlit("[");
                reveal_strlit("]");
                reveal_strlit("[]");
                assert(s@ =~= "[]"@);
            }
        }
        s
    }

    /// The index of the first rule whose matcher accepts the call; the
    /// rule count when none does.
    #[verifier::loop_isolation(false)]
    fn find_first_match(&self, input: &I) -> (r: usize)
        requires
            spec_matchers_obey(self.spec_rules()),
        ensures
            r as int == spec_first_match(self.spec_rules(), *input),
            r <= self.spec_rules().len(),
    {
        let ghost rules0 = self.rules@;
        proof {
            lemma_first_match_from(rules0, *input, 0);
        }
        let mut i: usize = 0;
        while i < self.rules.len()
            invariant
                i <= self.rules.len(),
                forall|j: int|
                    0 <= j < i ==> !(#[trigger] rules0[j].matcher.spec_matches(*input)),
            decreases self.rules.len() - i,
        {
            if self.rules[i].matcher.matches(input) {
                proof {
                    assert(i as int == spec_first_match(rules0, *input));
                }
                return i;
            }
            i += 1;
        }
        proof {
            assert(i as int == spec_first_match(rules0, *input));
        }
        i
    }

    /// Like `record_call_and_find_mock_output`, but instead of asking the
    /// caller to rule the two fatal misconfigurations out, it reports
    /// them: the call is still logged, and `Err` carries the diagnostic —
    /// for an unconfigured call, the mock's name and the full rule list.
    pub fn try_record_call_and_find_mock_output(&mut self, input: I) -> (r: Result<
        Option<O>,
        String,
    >)
        requires
            spec_matchers_obey(old(self).spec_rules()),
            old(self).spec_rules()[spec_first_match(old(self).spec_rules(), input)].behavior
                matches Behavior::Function(f) ==> call_requires(f, (input,)),
        ensures
            final(self).spec_name() == old(self).spec_name(),
            final(self).spec_logs().len() == old(self).spec_logs().len() + 1,
            exists|logged: I|
                #[trigger] cloned::<I>(input, logged) && final(self).spec_logs() == old(
                    self,
                ).spec_logs().push(logged),
            faithful_clone::<I>() ==> final(self).spec_logs() == old(self).spec_logs().push(
                input,
            ),
            r is Err <==> spec_dispatch_fatal(old(self).spec_rules(), input),
            r is Err ==> final(self).spec_rules() == old(self).spec_rules(),
            ({
                let prefix = "mock not found for "@ + old(self).spec_name() + "\n"@;
                r is Err && spec_first_match(old(self).spec_rules(), input) == old(
                    self,
                ).spec_rules().len() ==> (r matches Err(m) && m@.len() >= prefix.len()
                    && m@.subrange(0, prefix.len() as int) == prefix)
            }),
            ({
                let name = old(self).spec_name();
                r is Err && spec_first_match(old(self).spec_rules(), input) < old(
                    self,
                ).spec_rules().len() ==> (r matches Err(m) && m@.len() >= name.len()
                    && m@.subrange(0, name.len() as int) == name)
            }),
            ({
                let rules = old(self).spec_rules();
                let name = old(self).spec_name();
                r is Err && spec_first_match(rules, input) == rules.len() ==> (r matches Err(m)
                    && exists|dump: Seq<char>|
                    #![trigger spec_rules_dump(rules, dump)]
                    {
                        &&& spec_rules_dump(rules, dump)
                        &&& m@ == "mock not found for "@ + name + "\n"@ + dump
                    })
            }),
            ({
                let rules = old(self).spec_rules();
                let name = old(self).spec_name();
                r is Err && spec_first_match(rules, input) < rules.len() ==> (r matches Err(m)
                    && exists|dump: Seq<char>|
                    #![trigger spec_rules_dump(rules, dump)]
                    {
                        &&& spec_rules_dump(rules, dump)
                        &&& m@ == name + " has no next value to return\n"@ + dump
                    })
            }),
            r matches Ok(out) ==> ({
                let rules = old(self).spec_rules();
                let k = spec_first_match(rules, input);
                &&& (rules[k].behavior matches Behavior::Function(f) ==> {
                    &&& final(self).spec_rules() == rules
                    &&& out matches Some(v) && call_ensures(f, (input,), v)
                })
                &&& (rules[k].behavior matches Behavior::Const(c) ==> {
                    &&& final(self).spec_rules().len() == rules.len()
                    &&& forall|j: int|
                        0 <= j < rules.len() && j != k ==> final(self).spec_rules()[j] == rules[j]
                    &&& final(self).spec_rules()[k].matcher == rules[k].matcher
                    &&& final(self).spec_rules()[k].behavior matches Behavior::Const(c2)
                        && c.spec_advances_to(c2)
                    &&& out matches Some(v) && cloned::<O>(c.spec_head(), v)
                    &&& faithful_clone::<O>() ==> out == Some(c.spec_head())
                })
                &&& (rules[k].behavior matches Behavior::CallsRealImpl ==> {
                    &&& final(self).spec_rules() == rules
                    &&& out is None
                })
            }),
    {
        let ghost rules0 = self.rules@;
        let ghost k = spec_first_match(rules0, input);
        let logged = input.clone();
        let ghost logged_value = logged;
        self.logs.push(logged);
        proof {
            assert(cloned::<I>(input, logged_value));
            if faithful_clone::<I>() {
                assert(logged_value == input);
            }
        }
        let idx = self.find_first_match(&input);
        if idx == self.rules.len() {
            let mut msg = "mock not found for ".to_owned();
            msg.append(self.name);
            msg.append("\n");
            let dump = self.rules_repr();
            msg.append(dump.as_str());
            proof {
                let prefix = "mock not found for "@ + self.name@ + "\n"@;
                assert(msg@.subrange(0, prefix.len() as int) =~= prefix);
                assert(spec_rules_dump(rules0, dump@));
                assert(msg@ == "mock not found for "@ + self.name@ + "\n"@ + dump@);
            }
            Err(msg)
        } else {
            let exhausted = match &self.rules[idx].behavior {
                Behavior::Const(c) => c.is_exhausted(),
                _ => false,
            };
            if exhausted {
                let mut msg = self.name.to_owned();
                msg.append(" has no next value to return\n");
                let dump = self.rules_repr();
                msg.append(dump.as_str());
                proof {
                    assert(msg@.subrange(0, self.name@.len() as int) =~= self.name@);
                    assert(spec_rules_dump(rules0, dump@));
                    assert(msg@ == self.name@ + " has no next value to return\n"@ + dump@);
                }
                Err(msg)
            } else {
                let rule = &mut self.rules[idx];
                let out = rule.behavior.called(input);
                proof {
                    if !(rules0[k].behavior is Const) {
                        assert(self.rules@ =~= rules0);
                    }
                    match rules0[k].behavior {
                        Behavior::Const(c) => {
                            if faithful_clone::<O>() {
                                assert(out matches Some(v) && cloned::<O>(c.spec_head(), v));
                                assert(out == Some(c.spec_head()));
                            }
                        },
                        _ => {},
                    }
                }
                Ok(out)
            }
        }
    }
}

impl<I: Clone + core::fmt::Debug, O: Clone, M: Match<I>, F: Fn(I) -> O> Mock<I, O, M, F> {
    /// Like `assert_called`, but instead of asking the caller to rule an
    /// empty match out, it reports it: `Err` carries the diagnostic
    /// naming the mock and dumping the complete unfiltered log, so the
    /// calls that did happen are visible.
    pub fn checked_assert_called(&self, matcher: M) -> (r: Result<MockResult<I>, String>)
        requires
            matcher.obeys(),
        ensures
            r is Ok <==> spec_filter(self.spec_logs(), matcher).len() > 0,
            r matches Ok(res) ==> {
                &&& res.name@ == self.spec_name()
                &&& res.logs@.len() == spec_filter(self.spec_logs(), matcher).len()
                &&& forall|j: int|
                    0 <= j < res.logs@.len() ==> cloned::<I>(
                        spec_filter(self.spec_logs(), matcher)[j],
                        #[trigger] res.logs@[j],
                    )
                &&& faithful_clone::<I>() ==> res.logs@ == spec_filter(
                    self.spec_logs(),
                    matcher,
                )
            },
            ({
                let prefix = self.spec_name() + " was not called\n"@;
                r matches Err(m) ==> m@.len() >= prefix.len() && m@.subrange(
                    0,
                    prefix.len() as int,
                ) == prefix
            }),
            r matches Err(m) ==> exists|dump: Seq<char>|
                #![trigger spec_log_dump(self.spec_logs().len(), dump)]
                {
                    &&& spec_log_dump(self.spec_logs().len(), dump)
                    &&& m@ == self.spec_name() + " was not called\n"@ + dump
                },
    {
        let logs = self.logs.filter_matches(&matcher);
        if logs.is_empty() {
            let mut msg = self.name.to_owned();
            msg.append(" was not called\n");
            let dump = self.logs.repr();
            msg.append(dump.as_str());
            proof {
                let prefix = self.name@ + " was not called\n"@;
                assert(msg@.subrange(0, prefix.len() as int) =~= prefix);
                assert(spec_log_dump(self.spec_logs().len(), dump@));
                assert(msg@ == self.name@ + " was not called\n"@ + dump@);
            }
            Err(msg)
        } else {
            Ok(MockResult { name: self.name, logs })
        }
    }
}

impl<I: Clone, O: Clone, M: Match<I>, F: Fn(I) -> O> MockObject<I, O, M, F> for Mock<
    I,
    O,
    M,
    F,
> {
    closed spec fn spec_name(&self) -> Seq<char> {
        self.name@
    }

    closed spec fn spec_logs(&self) -> Seq<I> {
        self.logs@
    }

    closed spec fn spec_rules(&self) -> Seq<Rule<M, O, F>> {
        self.rules@
    }

    #[verifier::loop_isolation(false)]
    fn record_call_and_find_mock_output(&mut self, input: I) -> (r: Option<O>) {
        let ghost rules0 = self.rules@;
        let ghost k = spec_first_match(rules0, input);
        proof {
            lemma_first_match_from(rules0, input, 0);
        }
        let logged = input.clone();
        let ghost logged_value = logged;
        self.logs.push(logged);
        let ghost logs1 = self.logs@;
        let mut i: usize = 0;
        while i < self.rules.len()
            invariant
                self.rules@ == rules0,
                self.logs@ == logs1,
                self.name == old(self).name,
                i <= self.rules.len(),
                forall|j: int|
                    0 <= j < i ==> !(#[trigger] rules0[j].matcher.spec_matches(input)),
            decreases self.rules.len() - i,
        {
            let matched = self.rules[i].matcher.matches(&input);
            if matched {
                proof {
                    assert(k == i);
                }
                let rule = &mut self.rules[i];
                let out = rule.behavior.called(input);
                proof {
                    if !(rules0[k].behavior is Const) {
                        assert(self.rules@ =~= rules0);
                    }
                    assert(cloned::<I>(input, logged_value));
                    assert(self.logs@ == old(self).spec_logs().push(logged_value));
                    if faithful_clone::<I>() {
                        assert(logged_value == input);
                    }
                    match rules0[k].behavior {
                        Behavior::Const(c) => {
                            if faithful_clone::<O>() {
                                assert(out matches Some(v) && cloned::<O>(c.spec_head(), v));
                                assert(out == Some(c.spec_head()));
                            }
                        },
                        _ => {},
                    }
                }
                return out;
            }
            i += 1;
        }
        proof {
            assert(k == rules0.len());
            assert(false);
        }
        vstd::pervasive::unreached()
    }

    fn returns_with(&mut self, matcher: M, behavior: Behavior<O, F>) {
        self.rules.push(Rule { matcher, behavior });
    }

    fn calls_real_impl(&mut self, matcher: M) {
        self.rules.push(Rule { matcher, behavior: Behavior::CallsRealImpl });
    }

    fn assert_called(&self, matcher: M) -> (r: MockResult<I>) {
        let logs = self.logs.filter_matches(&matcher);
        MockResult { name: self.name, logs }
    }
}

impl<I: Clone, O: Clone, M: Match<I>, F: Fn(I) -> O> MockObjectReturns<I, O, M, F> for Mock<
    I,
    O,
    M,
    F,
> {
    fn returns_value(&mut self, matcher: M, ret: O) {
        self.returns_with(matcher, Behavior::Const(ConstValues::Repeat(ret)));
    }
}

} // verus!
