//! Nondeterministic booleans: handles into a session's formula, and the
//! connectives that encode boolean algebra into clauses.

use crate::formula::Lit;
use crate::machine::{NdError, NdMachine};
use crate::store::{clause_view, literal_view, negate};
use sat::Literal;
use vstd::prelude::*;

verus! {

/// A boolean whose value the solver chooses: one literal of a session's
/// formula. Copies are the same boolean.
#[allow(non_camel_case_types)]
#[derive(Clone, Copy)]
pub struct ndbool(pub(crate) Literal);

impl View for ndbool {
    type V = Lit;

    closed spec fn view(&self) -> Lit {
        literal_view(self.0)
    }
}

impl ndbool {
    /// A fresh variable forced to be true. Each call allocates a variable of
    /// its own.
    pub fn t(machine: &mut NdMachine) -> (r: ndbool)
        requires
            old(machine).wf(),
            old(machine).formula().num_vars < usize::MAX,
        ensures
            final(machine).wf(),
            final(machine).formula() == old(machine).formula().with_constant(true),
            final(machine).solution() is None,
            r@ == old(machine).formula().next(),
    {
        let l = machine.allocate();
        let unit = [l];
        assert(clause_view(unit@) == seq![literal_view(l)]);
        machine.constrain(&unit);
        ndbool(l)
    }

    /// A fresh variable forced to be false.
    pub fn f(machine: &mut NdMachine) -> (r: ndbool)
        requires
            old(machine).wf(),
            old(machine).formula().num_vars < usize::MAX,
        ensures
            final(machine).wf(),
            final(machine).formula() == old(machine).formula().with_constant(false),
            final(machine).solution() is None,
            r@ == old(machine).formula().next(),
    {
        let l = machine.allocate();
        let unit = [negate(l)];
        assert(clause_view(unit@) == seq![literal_view(l).negate()]);
        machine.constrain(&unit);
        ndbool(l)
    }

    /// A fresh variable under no constraint.
    pub fn fresh(machine: &mut NdMachine) -> (r: ndbool)
        requires
            old(machine).wf(),
            old(machine).formula().num_vars < usize::MAX,
        ensures
            final(machine).wf(),
            final(machine).formula() == old(machine).formula().with_var(),
            final(machine).solution() is None,
            r@ == old(machine).formula().next(),
    {
        ndbool(machine.allocate())
    }

    /// The value that the solution held by `machine` gives to this boolean,
    /// or `NoSolutionAvailable` where the machine holds none.
    pub fn value(self, machine: &NdMachine) -> (r: Result<bool, NdError>)
        requires
            machine.wf(),
            machine.formula().owns(self@),
        ensures
            r == match machine.solution() {
                Some(m) => Ok::<bool, NdError>(self@.holds(m)),
                None => Err(NdError::NoSolutionAvailable),
            },
    {
        machine.evaluate(self.0)
    }

    /// Negation: the same variable with the polarity flipped. Nothing is
    /// allocated and nothing asserted.
    pub fn not(self) -> (r: ndbool)
        ensures
            r@ == self@.negate(),
    {
        ndbool(negate(self.0))
    }

    /// Conjunction: a fresh variable `l` with the clauses of
    /// `l <=> self /\ other`.
    pub fn bitand(self, other: ndbool, machine: &mut NdMachine) -> (r: ndbool)
        requires
            old(machine).wf(),
            old(machine).formula().owns(self@),
            old(machine).formula().owns(other@),
            old(machine).formula().num_vars < usize::MAX,
        ensures
            final(machine).wf(),
            final(machine).formula() == old(machine).formula().with_and(self@, other@),
            final(machine).solution() is None,
            r@ == old(machine).formula().next(),
    {
        let l = machine.allocate();
        let first = [negate(self.0), negate(other.0), l];
        let second = [self.0, negate(l)];
        let third = [other.0, negate(l)];
        assert(clause_view(first@) == seq![self@.negate(), other@.negate(), literal_view(l)]);
        assert(clause_view(second@) == seq![self@, literal_view(l).negate()]);
        assert(clause_view(third@) == seq![other@, literal_view(l).negate()]);
        machine.constrain(&first);
        machine.constrain(&second);
        machine.constrain(&third);
        ndbool(l)
    }

    /// Disjunction: a fresh variable `l` with the clauses of
    /// `l <=> self \/ other`.
    pub fn bitor(self, other: ndbool, machine: &mut NdMachine) -> (r: ndbool)
        requires
            old(machine).wf(),
            old(machine).formula().owns(self@),
            old(machine).formula().owns(other@),
            old(machine).formula().num_vars < usize::MAX,
        ensures
            final(machine).wf(),
            final(machine).formula() == old(machine).formula().with_or(self@, other@),
            final(machine).solution() is None,
            r@ == old(machine).formula().next(),
    {
        let l = machine.allocate();
        let first = [self.0, other.0, negate(l)];
        let second = [negate(self.0), l];
        let third = [negate(other.0), l];
        assert(clause_view(first@) == seq![self@, other@, literal_view(l).negate()]);
        assert(clause_view(second@) == seq![self@.negate(), literal_view(l)]);
        assert(clause_view(third@) == seq![other@.negate(), literal_view(l)]);
        machine.constrain(&first);
        machine.constrain(&second);
        machine.constrain(&third);
        ndbool(l)
    }

    /// Exclusive or, composed as `(self \/ other) /\ ~(self /\ other)`: three
    /// gates and three fresh variables, the last of which is the result.
    pub fn bitxor(self, other: ndbool, machine: &mut NdMachine) -> (r: ndbool)
        requires
            old(machine).wf(),
            old(machine).formula().owns(self@),
            old(machine).formula().owns(other@),
            old(machine).formula().num_vars + 3 <= usize::MAX,
        ensures
            final(machine).wf(),
            final(machine).formula() == old(machine).formula().with_xor(self@, other@),
            final(machine).solution() is None,
            r@ == old(machine).formula().composed(),
    {
        let either = self.bitor(other, machine);
        let both = self.bitand(other, machine);
        either.bitand(both.not(), machine)
    }

    /// `*self = *self & rhs`.
    pub fn bitand_assign(&mut self, rhs: ndbool, machine: &mut NdMachine)
        requires
            old(machine).wf(),
            old(machine).formula().owns(old(self)@),
            old(machine).formula().owns(rhs@),
            old(machine).formula().num_vars < usize::MAX,
        ensures
            final(machine).wf(),
            final(machine).formula() == old(machine).formula().with_and(old(self)@, rhs@),
            final(machine).solution() is None,
            final(self)@ == old(machine).formula().next(),
    {
        *self = self.bitand(rhs, machine);
    }

    /// `*self = *self | rhs`.
    pub fn bitor_assign(&mut self, rhs: ndbool, machine: &mut NdMachine)
        requires
            old(machine).wf(),
            old(machine).formula().owns(old(self)@),
            old(machine).formula().owns(rhs@),
            old(machine).formula().num_vars < usize::MAX,
        ensures
            final(machine).wf(),
            final(machine).formula() == old(machine).formula().with_or(old(self)@, rhs@),
            final(machine).solution() is None,
            final(self)@ == old(machine).formula().next(),
    {
        *self = self.bitor(rhs, machine);
    }

    /// `*self = *self ^ rhs`.
    pub fn bitxor_assign(&mut self, rhs: ndbool, machine: &mut NdMachine)
        requires
            old(machine).wf(),
            old(machine).formula().owns(old(self)@),
            old(machine).formula().owns(rhs@),
            old(machine).formula().num_vars + 3 <= usize::MAX,
        ensures
            final(machine).wf(),
            final(machine).formula() == old(machine).formula().with_xor(old(self)@, rhs@),
            final(machine).solution() is None,
            final(self)@ == old(machine).formula().composed(),
    {
        *self = self.bitxor(rhs, machine);
    }
}

/// Makes `b` a hard constraint: its literal is asserted as a unit clause.
pub fn ndassert(machine: &mut NdMachine, b: ndbool)
    requires
        old(machine).wf(),
        old(machine).formula().owns(b@),
    ensures
        final(machine).wf(),
        final(machine).formula() == old(machine).formula().with_assertion(b@),
        final(machine).solution() is None,
{
    let unit = [b.0];
    assert(clause_view(unit@) == seq![b@]);
    machine.constrain(&unit);
}

} // verus!
