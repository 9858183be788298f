//! The outcome of a successful assertion.

use vstd::prelude::*;
use vstd::string::StringExecFns;

use crate::logs::spec_log_dump;
use crate::logs::Logs;
use crate::render::spec_u64_string;
use crate::render::u64_string;
use crate::times::Times;

verus! {

/// What a successful assertion hands back: the mock's name and the
/// matched subsequence of its call log, for further count checks.
#[derive(Debug, PartialEq)]
pub struct MockResult<I> {
    pub name: &'static str,
    pub logs: Logs<I>,
}

impl<I> MockResult<I> {
    /// How many of the matched calls this result holds.
    pub fn count(&self) -> (r: usize)
        ensures
            r == self.logs@.len(),
    {
        self.logs.len()
    }

    /// Decides whether the number of matched calls satisfies a
    /// call-count predicate.
    pub fn times_satisfied(&self, times: &Times) -> (r: bool)
        ensures
            r == times.spec_contains(self.logs@.len() as u64),
    {
        let count = self.logs.len() as u64;
        times.contains(&count)
    }
}

impl<I: core::fmt::Debug> MockResult<I> {
    /// Checks the number of matched calls against a call-count
    /// predicate; on a mismatch `Err` carries a diagnostic naming the
    /// mock and stating the expected predicate, the actual count, and
    /// the matched calls.
    pub fn checked_times(&self, times: &Times) -> (r: Result<(), String>)
        ensures
            r is Ok <==> times.spec_contains(self.logs@.len() as u64),
            r matches Err(m) ==> m@.len() >= self.name@.len() && m@.subrange(
                0,
                self.name@.len() as int,
            ) == self.name@,
            r matches Err(m) ==> exists|dump: Seq<char>|
                #![trigger spec_log_dump(self.logs@.len(), dump)]
                {
                    &&& spec_log_dump(self.logs@.len(), dump)
                    &&& m@ == self.name@ + " was expected to be called "@ + times.spec_display()
                        + " times, but it was called "@ + spec_u64_string(self.logs@.len())
                        + " times\n"@ + dump
                },
    {
        let count = self.logs.len() as u64;
        if times.contains(&count) {
            Ok(())
        } else {
            let mut msg = self.name.to_owned();
            msg.append(" was expected to be called ");
            let expected = times.to_string();
            msg.append(expected.as_str());
            msg.append(" times, but it was called ");
            let actual = u64_string(count);
            msg.append(actual.as_str());
            msg.append(" times\n");
            let dump = self.logs.repr();
            msg.append(dump.as_str());
            proof {
                assert(msg@.subrange(0, self.name@.len() as int) =~= self.name@);
                assert(count as nat == self.logs@.len());
                assert(spec_log_dump(self.logs@.len(), dump@));
                assert(msg@ == self.name@ + " was expected to be called "@
                    + times.spec_display() + " times, but it was called "@
                    + spec_u64_string(self.logs@.len()) + " times\n"@ + dump@);
            }
            Err(msg)
        }
    }
}

} // verus!
