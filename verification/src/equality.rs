//! Equality as an encoding: a type that can encode "equals" against a
//! right-hand type has "not equals" as the negation of that encoding.

use crate::boolean::{ndassert, ndbool};
use crate::formula::{Formula, Lit};
use crate::machine::NdMachine;
use vstd::prelude::*;

verus! {

/// Values that can encode their equality with an `Rhs` into a session.
///
/// An implementation says, by its three specification functions, when the
/// encoding can be made, what it appends to the formula, and which literal
/// stands for the equality afterwards. One that says nothing is never ready:
/// verified code cannot call it, and unverified code calls it at its own
/// risk.
pub trait NdEq<Rhs: ?Sized = Self> {
    /// Whether `self == rhs` can be encoded into a session whose formula is
    /// `f`: the operands belong to `f`, and there is room for the variables
    /// that the encoding allocates.
    open spec fn ndeq_ready(&self, rhs: &Rhs, f: Formula) -> bool {
        false
    }

    /// The formula that encoding `self == rhs` makes of `f`.
    open spec fn ndeq_formula(&self, rhs: &Rhs, f: Formula) -> Formula {
        f
    }

    /// The literal of `ndeq_formula` that stands for `self == rhs`.
    open spec fn ndeq_lit(&self, rhs: &Rhs, f: Formula) -> Lit {
        f.next()
    }

    /// Encodes `self == rhs` and returns the boolean that stands for it.
    /// Variables and clauses are only added, and a solution survives only
    /// where the formula was left as it was.
    fn ndeq(&self, rhs: &Rhs, machine: &mut NdMachine) -> (r: ndbool)
        requires
            old(machine).wf(),
            self.ndeq_ready(rhs, old(machine).formula()),
        ensures
            final(machine).wf(),
            final(machine).formula() == self.ndeq_formula(rhs, old(machine).formula()),
            final(machine).formula().extends(old(machine).formula()),
            final(machine).formula().owns(r@),
            final(machine).solution() is Some ==> final(machine).formula() == old(
                machine,
            ).formula() && final(machine).solution() == old(machine).solution(),
            r@ == self.ndeq_lit(rhs, old(machine).formula()),
    ;

    /// Encodes `self != rhs`: the negation of what `ndeq` returns.
    fn ndne(&self, rhs: &Rhs, machine: &mut NdMachine) -> (r: ndbool)
        requires
            old(machine).wf(),
            self.ndeq_ready(rhs, old(machine).formula()),
        ensures
            final(machine).wf(),
            final(machine).formula() == self.ndeq_formula(rhs, old(machine).formula()),
            final(machine).formula().extends(old(machine).formula()),
            final(machine).formula().owns(r@),
            final(machine).solution() is Some ==> final(machine).formula() == old(
                machine,
            ).formula() && final(machine).solution() == old(machine).solution(),
            r@ == self.ndeq_lit(rhs, old(machine).formula()).negate(),
    {
        self.ndeq(rhs, machine).not()
    }
}

impl NdEq for ndbool {
    open spec fn ndeq_ready(&self, rhs: &ndbool, f: Formula) -> bool {
        f.owns(self@) && f.owns(rhs@) && f.num_vars + 3 <= usize::MAX
    }

    open spec fn ndeq_formula(&self, rhs: &ndbool, f: Formula) -> Formula {
        f.with_eq(self@, rhs@)
    }

    open spec fn ndeq_lit(&self, rhs: &ndbool, f: Formula) -> Lit {
        f.composed()
    }

    /// The biconditional, composed as `(self \/ ~rhs) /\ (~self \/ rhs)`:
    /// three gates and three fresh variables, the last of which is the
    /// result.
    fn ndeq(&self, rhs: &ndbool, machine: &mut NdMachine) -> (r: ndbool)
        ensures
            final(machine).solution() is None,
    {
        proof {
            old(machine).formula().lemma_gates_extend(self@, rhs@);
        }
        let left = self.bitor(rhs.not(), machine);
        let right = self.not().bitor(*rhs, machine);
        left.bitand(right, machine)
    }
}

/// Encodes `lhs == rhs` and makes it a hard constraint.
pub fn ndassert_eq<T: NdEq<U>, U>(machine: &mut NdMachine, lhs: T, rhs: U)
    requires
        old(machine).wf(),
        lhs.ndeq_ready(&rhs, old(machine).formula()),
    ensures
        final(machine).wf(),
        final(machine).formula() == lhs.ndeq_formula(&rhs, old(machine).formula()).with_assertion(
            lhs.ndeq_lit(&rhs, old(machine).formula()),
        ),
        final(machine).solution() is None,
{
    let equal = lhs.ndeq(&rhs, machine);
    ndassert(machine, equal);
}

/// Encodes `lhs != rhs` and makes it a hard constraint.
pub fn ndassert_ne<T: NdEq<U>, U>(machine: &mut NdMachine, lhs: T, rhs: U)
    requires
        old(machine).wf(),
        lhs.ndeq_ready(&rhs, old(machine).formula()),
    ensures
        final(machine).wf(),
        final(machine).formula() == lhs.ndeq_formula(&rhs, old(machine).formula()).with_assertion(
            lhs.ndeq_lit(&rhs, old(machine).formula()).negate(),
        ),
        final(machine).solution() is None,
{
    let distinct = lhs.ndne(&rhs, machine);
    ndassert(machine, distinct);
}

} // verus!
