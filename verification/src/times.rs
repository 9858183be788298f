//! Call-count predicates used by assertions.

use vstd::prelude::*;
use vstd::string::StringExecFns;

use crate::render::spec_u64_string;
use crate::render::u64_string;

verus! {

/// One end of a call-count interval: inclusive, exclusive, or absent.
#[derive(Clone, Copy, Debug, PartialEq, Eq, Structural)]
pub enum Bound {
    Included(u64),
    Excluded(u64),
    Unbounded,
}

/// A call-count predicate: either an exact count or a pair of interval
/// ends, each of which may be inclusive, exclusive, or unbounded.
#[derive(Clone, Copy, Debug, PartialEq, Eq)]
pub enum Times {
    Exact(u64),
    Range((Bound, Bound)),
}

impl Bound {
    /// What this bound admits when it is the lower end of an interval.
    pub open spec fn spec_admits_lower(self, count: u64) -> bool {
        match self {
            Bound::Included(n) => n <= count,
            Bound::Excluded(n) => n < count,
            Bound::Unbounded => true,
        }
    }

    /// What this bound admits when it is the upper end of an interval.
    pub open spec fn spec_admits_upper(self, count: u64) -> bool {
        match self {
            Bound::Included(n) => count <= n,
            Bound::Excluded(n) => count < n,
            Bound::Unbounded => true,
        }
    }
}

impl Times {
    /// Which counts this predicate accepts: an exact count accepts only
    /// itself; a bound pair accepts the counts inside the interval, each
    /// end judged independently.
    pub open spec fn spec_contains(self, count: u64) -> bool {
        match self {
            Times::Exact(n) => count == n,
            Times::Range(bounds) => bounds.0.spec_admits_lower(count)
                && bounds.1.spec_admits_upper(count),
        }
    }

    /// Decides whether a call count satisfies this predicate.
    pub fn contains(&self, count: &u64) -> (r: bool)
        ensures
            r == self.spec_contains(*count),
    {
        match self {
            Times::Exact(n) => *count == *n,
            Times::Range(bounds) => {
                let lower_ok = match bounds.0 {
                    Bound::Included(n) => n <= *count,
                    Bound::Excluded(n) => n < *count,
                    Bound::Unbounded => true,
                };
                let upper_ok = match bounds.1 {
                    Bound::Included(n) => *count <= n,
                    Bound::Excluded(n) => *count < n,
                    Bound::Unbounded => true,
                };
                lower_ok && upper_ok
            },
        }
    }
}

impl Bound {
    /// How this bound renders ahead of the `x` in an interval: the number
    /// then `<=` or `<`, or nothing when unbounded.
    pub open spec fn spec_display_lower(self) -> Seq<char> {
        match self {
            Bound::Included(n) => spec_u64_string(n as nat) + seq!['<', '='],
            Bound::Excluded(n) => spec_u64_string(n as nat) + seq!['<'],
            Bound::Unbounded => Seq::empty(),
        }
    }

    /// How this bound renders after the `x` in an interval: `<=` or `<`
    /// then the number, or nothing when unbounded.
    pub open spec fn spec_display_upper(self) -> Seq<char> {
        match self {
            Bound::Included(n) => seq!['<', '='] + spec_u64_string(n as nat),
            Bound::Excluded(n) => seq!['<'] + spec_u64_string(n as nat),
            Bound::Unbounded => Seq::empty(),
        }
    }
}

impl Times {
    /// The diagnostic rendering: an exact count is the bare number; a
    /// bound pair reads as an interval around `x`, such as `1<=x<2`, with
    /// an unbounded end left empty.
    pub open spec fn spec_display(self) -> Seq<char> {
        match self {
            Times::Exact(n) => spec_u64_string(n as nat),
            Times::Range(bounds) => bounds.0.spec_display_lower() + seq!['x']
                + bounds.1.spec_display_upper(),
        }
    }

    /// Renders the predicate for diagnostics.
    pub fn to_string(&self) -> (r: String)
        ensures
            r@ == self.spec_display(),
    {
        proof {
            reveal_strlit("");
            reveal_strlit("x");
            reveal_strlit("<");
            reveal_strlit("<=");
        }
        match self {
            Times::Exact(n) => {
                let r = u64_string(*n);
                proof {
                    assert(r@ =~= self.spec_display());
                }
                r
            },
            Times::Range(bounds) => {
                let mut s = String::new();
                match bounds.0 {
                    Bound::Included(n) => {
                        s.append(u64_string(n).as_str());
                        s.append("<=");
                    },
                    Bound::Excluded(n) => {
                        s.append(u64_string(n).as_str());
                        s.append("<");
                    },
                    Bound::Unbounded => {},
                }
                proof {
                    assert(s@ =~= bounds.0.spec_display_lower());
                }
                s.append("x");
                match bounds.1 {
                    Bound::Included(n) => {
                        s.append("<=");
                        s.append(u64_string(n).as_str());
                    },
                    Bound::Excluded(n) => {
                        s.append("<");
                        s.append(u64_string(n).as_str());
                    },
                    Bound::Unbounded => {},
                }
                proof {
                    assert(s@ =~= self.spec_display());
                }
                s
            },
        }
    }
}

impl From<u64> for Times {
    fn from(times: u64) -> (r: Self) {
        Times::Exact(times)
    }
}

impl vstd::std_specs::convert::FromSpecImpl<u64> for Times {
    open spec fn obeys_from_spec() -> bool {
        true
    }

    open spec fn from_spec(v: u64) -> Times {
        Times::Exact(v)
    }
}

#[verifier::external_type_specification]
#[verifier::reject_recursive_types(Idx)]
pub struct ExRangeFrom<Idx>(core::ops::RangeFrom<Idx>);

#[verifier::external_type_specification]
#[verifier::reject_recursive_types(Idx)]
pub struct ExRangeTo<Idx>(core::ops::RangeTo<Idx>);

/// Relies on `RangeInclusive::start`, which returns the range's stored
/// lower bound.
pub assume_specification<Idx>[ core::ops::RangeInclusive::<Idx>::start ](
    r: &core::ops::RangeInclusive<Idx>,
) -> (ret: &Idx)
    ensures
        *ret == r@.start,
;

/// Relies on `RangeInclusive::end`, which returns the range's stored
/// upper bound.
pub assume_specification<Idx>[ core::ops::RangeInclusive::<Idx>::end ](
    r: &core::ops::RangeInclusive<Idx>,
) -> (ret: &Idx)
    ensures
        *ret == r@.end,
;

impl From<core::ops::Range<u64>> for Times {
    fn from(range: core::ops::Range<u64>) -> (r: Self) {
        Times::Range((Bound::Included(range.start), Bound::Excluded(range.end)))
    }
}

impl vstd::std_specs::convert::FromSpecImpl<core::ops::Range<u64>> for Times {
    open spec fn obeys_from_spec() -> bool {
        true
    }

    open spec fn from_spec(v: core::ops::Range<u64>) -> Times {
        Times::Range((Bound::Included(v.start), Bound::Excluded(v.end)))
    }
}

impl From<core::ops::RangeFrom<u64>> for Times {
    fn from(range: core::ops::RangeFrom<u64>) -> (r: Self) {
        Times::Range((Bound::Included(range.start), Bound::Unbounded))
    }
}

impl vstd::std_specs::convert::FromSpecImpl<core::ops::RangeFrom<u64>> for Times {
    open spec fn obeys_from_spec() -> bool {
        true
    }

    open spec fn from_spec(v: core::ops::RangeFrom<u64>) -> Times {
        Times::Range((Bound::Included(v.start), Bound::Unbounded))
    }
}

impl From<core::ops::RangeTo<u64>> for Times {
    fn from(range: core::ops::RangeTo<u64>) -> (r: Self) {
        Times::Range((Bound::Unbounded, Bound::Excluded(range.end)))
    }
}

impl vstd::std_specs::convert::FromSpecImpl<core::ops::RangeTo<u64>> for Times {
    open spec fn obeys_from_spec() -> bool {
        true
    }

    open spec fn from_spec(v: core::ops::RangeTo<u64>) -> Times {
        Times::Range((Bound::Unbounded, Bound::Excluded(v.end)))
    }
}

impl From<core::ops::RangeInclusive<u64>> for Times {
    fn from(range: core::ops::RangeInclusive<u64>) -> (r: Self) {
        let start = *range.start();
        let end = *range.end();
        Times::Range((Bound::Included(start), Bound::Included(end)))
    }
}

impl vstd::std_specs::convert::FromSpecImpl<core::ops::RangeInclusive<u64>> for Times {
    open spec fn obeys_from_spec() -> bool {
        true
    }

    open spec fn from_spec(v: core::ops::RangeInclusive<u64>) -> Times {
        Times::Range((Bound::Included(v@.start), Bound::Included(v@.end)))
    }
}

} // verus!
