//! What cloning an argument or output value may do.
//!
//! The engine clones values when it records a call and when a repeated
//! constant value is handed out. `Clone` is user-implementable, so the
//! contracts state what holds of every clone through vstd's `cloned`
//! relation, and collapse to exact equalities for the types — such as the
//! integers and `String` — whose clones are known to equal their source.

use vstd::prelude::*;
use vstd::pervasive::cloned;

verus! {

/// Whether every possible clone of a `T` equals the value it was cloned
/// from. Holds for the primitive types and `String`; a contract clause
/// guarded by it states the exact value a cloning operation yields.
pub open spec fn faithful_clone<T: Clone>() -> bool {
    forall|a: T, b: T| #[trigger] cloned::<T>(a, b) ==> b == a
}

} // verus!
