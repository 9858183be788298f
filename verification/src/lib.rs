//! A test-double dispatch engine: mocks hold ordered rules pairing a matcher
//! with a behavior, record every call in an append-only log, and replay the
//! log against matchers and call-count predicates for assertions.

pub mod behavior;
pub mod clone_spec;
pub mod logs;
pub mod matcher;
pub mod mock;
pub mod mock_result;
pub mod render;
pub mod rule;
pub mod times;

pub use behavior::lemma_repeat_idempotent;
pub use behavior::Behavior;
pub use behavior::ConstValues;
pub use clone_spec::faithful_clone;
pub use logs::lemma_filter_any;
pub use logs::spec_filter;
pub use logs::Logs;
pub use matcher::lemma_predicate_meaning;
pub use matcher::Describe;
pub use matcher::Match;
pub use matcher::Matcher;
pub use matcher::Predicate;
pub use mock::lemma_first_match;
pub use mock::lemma_never_rules;
pub use mock::spec_dispatch_fatal;
pub use mock::spec_first_match;
pub use mock::Mock;
pub use mock::MockObject;
pub use mock::MockObjectReturns;
pub use mock_result::MockResult;
pub use rule::Rule;
pub use times::Bound;
pub use times::Times;
