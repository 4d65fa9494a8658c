//! The session: one formula store and the slot for its latest solution.

use crate::formula::Formula;
use crate::store::{assert_any, assignment_values, clause_view, formula_of, literal_view};
use sat::{Assignment, Instance, Literal};
use vstd::prelude::*;

verus! {

/// Why an operation could not be carried out.
#[derive(Clone, Copy, Debug, PartialEq, Eq, Structural)]
pub enum NdError {
    /// No session has been initialized in the slot that was handed in.
    UninitializedMachine,
    /// The session holds no solution: it was never solved, the last solve
    /// failed, or the formula has changed since.
    NoSolutionAvailable,
}

impl NdError {
    /// A line for the one who called: what to do first.
    pub fn message(&self) -> (text: &'static str)
        ensures
            text@ == match self {
                NdError::UninitializedMachine => "ndmachine::init() should be called first"@,
                NdError::NoSolutionAvailable => "No solution!"@,
            },
    {
        match self {
            NdError::UninitializedMachine => "ndmachine::init() should be called first",
            NdError::NoSolutionAvailable => "No solution!",
        }
    }
}

/// A session: the formula store, and the assignment that the last successful
/// solve produced, as long as the formula has not changed since.
pub struct NdMachine {
    instance: Instance,
    assignment: Option<Assignment>,
    allocated: usize,
}

impl NdMachine {
    /// The formula store itself, as a backend receives it.
    pub closed spec fn store(&self) -> Instance {
        self.instance
    }

    /// The assignment held, if any.
    pub closed spec fn slot(&self) -> Option<Assignment> {
        self.assignment
    }

    /// The machine's own count of the variables allocated.
    pub closed spec fn tally(&self) -> nat {
        self.allocated as nat
    }

    /// The formula built so far.
    pub open spec fn formula(&self) -> Formula {
        formula_of(self.store())
    }

    /// The valuation held, if any.
    pub open spec fn solution(&self) -> Option<Seq<bool>> {
        match self.slot() {
            Some(assignment) => Some(assignment_values(assignment)),
            None => None,
        }
    }

    /// The session invariant: every clause speaks of allocated variables
    /// only, the count is right, and a solution, where one is held, has a
    /// value for every variable.
    pub open spec fn wf(&self) -> bool {
        &&& self.formula().wf()
        &&& self.tally() == self.formula().num_vars
        &&& covers(self.formula(), self.slot())
    }

    /// Whether the solution held, where one is held, is a model of the
    /// formula. It is one exactly when the backend that gave it kept its
    /// word: the session stores what it is given.
    pub open spec fn sound(&self) -> bool {
        match self.solution() {
            Some(m) => self.formula().is_model(m),
            None => true,
        }
    }

    /// A session with an empty formula and no solution.
    pub fn new() -> (machine: NdMachine)
        ensures
            machine.wf(),
            machine.formula() == Formula::empty(),
            machine.solution() is None,
    {
        NdMachine { instance: Instance::new(), assignment: None, allocated: 0 }
    }

    /// Access to the session in `slot`, or `UninitializedMachine` where the
    /// slot is empty. The session handed out is the one in the slot: what is
    /// done to it is done to the slot.
    pub fn with(slot: &mut Option<NdMachine>) -> (r: Result<&mut NdMachine, NdError>)
        ensures
            match r {
                Ok(machine) => *old(slot) == Some(*machine) && *final(slot) == Some(
                    *final(machine),
                ),
                Err(e) => e == NdError::UninitializedMachine && *old(slot) is None && *final(slot)
                    is None,
            },
    {
        match slot {
            Some(machine) => Ok(machine),
            None => Err(NdError::UninitializedMachine),
        }
    }

    /// The number of variables allocated so far.
    pub fn num_vars(&self) -> (n: usize)
        requires
            self.wf(),
        ensures
            n == self.formula().num_vars,
    {
        self.allocated
    }

    /// Whether a solution is held.
    pub fn has_solution(&self) -> (held: bool)
        ensures
            held == self.solution().is_some(),
    {
        self.assignment.is_some()
    }

    /// Allocates a variable and drops the solution.
    pub(crate) fn allocate(&mut self) -> (lit: Literal)
        requires
            old(self).wf(),
            old(self).formula().num_vars < usize::MAX,
        ensures
            final(self).wf(),
            final(self).formula() == old(self).formula().with_var(),
            final(self).solution() is None,
            literal_view(lit) == old(self).formula().next(),
    {
        self.assignment = None;
        let lit = self.instance.fresh_var();
        self.allocated = self.allocated + 1;
        proof {
            old(self).formula().lemma_with_var_wf();
        }
        lit
    }

    /// Appends a clause and drops the solution.
    pub(crate) fn constrain(&mut self, lits: &[Literal])
        requires
            old(self).wf(),
            old(self).formula().owns_clause(clause_view(lits@)),
        ensures
            final(self).wf(),
            final(self).formula() == old(self).formula().with_clause(clause_view(lits@)),
            final(self).solution() is None,
    {
        self.assignment = None;
        assert_any(&mut self.instance, lits);
        proof {
            old(self).formula().lemma_with_clause_wf(clause_view(lits@));
        }
    }

    /// The value that the solution held gives to `lit`, or
    /// `NoSolutionAvailable` where none is held.
    pub(crate) fn evaluate(&self, lit: Literal) -> (r: Result<bool, NdError>)
        requires
            self.wf(),
            self.formula().owns(literal_view(lit)),
        ensures
            r == match self.solution() {
                Some(m) => Ok::<bool, NdError>(literal_view(lit).holds(m)),
                None => Err(NdError::NoSolutionAvailable),
            },
    {
        match &self.assignment {
            Some(assignment) => Ok(assignment.get(lit)),
            None => Err(NdError::NoSolutionAvailable),
        }
    }

    /// Takes what a backend returned: the slot holds it from now on, and the
    /// result says whether it is a solution. The formula is untouched.
    pub fn record(&mut self, outcome: Option<Assignment>) -> (sat: bool)
        requires
            old(self).wf(),
            covers(old(self).formula(), outcome),
        ensures
            final(self).wf(),
            final(self).store() == old(self).store(),
            final(self).slot() == outcome,
            sat == outcome.is_some(),
    {
        self.assignment = outcome;
        self.assignment.is_some()
    }
}

/// What reading an outcome takes: an assignment, where there is one, has a
/// value for every variable of `f`.
pub open spec fn covers(f: Formula, outcome: Option<Assignment>) -> bool {
    match outcome {
        Some(assignment) => f.num_vars <= assignment_values(assignment).len(),
        None => true,
    }
}

/// Installs a new, empty session in `slot`. A session that was there is
/// discarded with all its variables and clauses.
pub fn init(slot: &mut Option<NdMachine>)
    ensures
        match *final(slot) {
            Some(machine) => machine.wf() && machine.formula() == Formula::empty()
                && machine.solution() is None,
            None => false,
        },
{
    *slot = Some(NdMachine::new());
}

/// Hands the formula store to `backend` and keeps what it returns: `true`
/// with the assignment in the slot, or `false` with the slot empty where the
/// backend found the formula unsatisfiable or failed.
///
/// The assignment is not checked against the clauses. All that is asked of
/// the backend here is that its assignment can be read: that it has a value
/// for every variable.
pub fn solve_by<F: FnOnce(&Instance) -> Option<Assignment>>(
    machine: &mut NdMachine,
    backend: F,
) -> (sat: bool)
    requires
        old(machine).wf(),
        call_requires(backend, (&old(machine).store(),)),
        forall|outcome: Option<Assignment>|
            call_ensures(backend, (&old(machine).store(),), outcome) ==> covers(
                old(machine).formula(),
                outcome,
            ),
    ensures
        final(machine).wf(),
        final(machine).store() == old(machine).store(),
        call_ensures(backend, (&old(machine).store(),), final(machine).slot()),
        sat == final(machine).solution().is_some(),
{
    let outcome = backend(&machine.instance);
    machine.record(outcome)
}

} // verus!
