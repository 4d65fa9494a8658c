//! The `sat` crate's formula store, literals and assignments, as this library
//! sees them.
//!
//! The three types are opaque to the verifier. What they hold is named by the
//! specification functions below, and every contract in this file is taken on
//! trust from the crate's source: nothing here is proved.

use crate::formula::{Formula, Lit};
use sat::{Assignment, Instance, Literal};
use vstd::prelude::*;

verus! {

/// `sat::Instance`: a count of variables and a list of clauses, both private
/// to the crate.
#[verifier::external_type_specification]
#[verifier::external_body]
pub struct ExInstance(sat::Instance);

/// `sat::Literal`: the index of a variable and a polarity, both private to
/// the crate.
#[verifier::external_type_specification]
#[verifier::external_body]
pub struct ExLiteral(sat::Literal);

/// `sat::Assignment`: one value for each variable that a solver was asked
/// about, private to the crate.
#[verifier::external_type_specification]
#[verifier::external_body]
pub struct ExAssignment(sat::Assignment);

/// The variable and the polarity that a `sat::Literal` holds.
pub uninterp spec fn literal_view(lit: Literal) -> Lit;

/// The number of variables that a `sat::Instance` has allocated.
pub uninterp spec fn instance_num_vars(instance: Instance) -> nat;

/// The clauses that a `sat::Instance` holds, in the order of their assertion.
pub uninterp spec fn instance_clauses(instance: Instance) -> Seq<Seq<Lit>>;

/// The truth values that a `sat::Assignment` gives to the variables, by index.
pub uninterp spec fn assignment_values(assignment: Assignment) -> Seq<bool>;

/// The formula that an instance holds.
pub open spec fn formula_of(instance: Instance) -> Formula {
    Formula { num_vars: instance_num_vars(instance), clauses: instance_clauses(instance) }
}

/// The literals of an executable clause as plain values.
pub open spec fn clause_view(lits: Seq<Literal>) -> Seq<Lit> {
    lits.map_values(|lit: Literal| literal_view(lit))
}

/// `sat::Instance::new`: the new instance has no variable and no clause.
pub assume_specification[ sat::Instance::new ]() -> (instance: Instance)
    ensures
        instance_num_vars(instance) == 0,
        instance_clauses(instance) == Seq::<Seq<Lit>>::empty(),
;

/// `sat::Instance::fresh_var`: the instance counts one variable more, its
/// clauses are untouched, and the literal returned is the asserted literal of
/// the variable whose index is the old count. The count is a `usize` that the
/// crate increments, so it must not be at its maximum.
pub assume_specification[ sat::Instance::fresh_var ](instance: &mut Instance) -> (lit: Literal)
    requires
        instance_num_vars(*old(instance)) < usize::MAX,
    ensures
        instance_num_vars(*final(instance)) == instance_num_vars(*old(instance)) + 1,
        instance_clauses(*final(instance)) == instance_clauses(*old(instance)),
        literal_view(lit) == Lit::positive(instance_num_vars(*old(instance))),
;

/// `sat::Assignment::get`: the value of a literal is the value that the
/// assignment gives to its variable, flipped where the literal is negated.
/// The crate indexes its vector of values by the variable, so the variable
/// must be one that the assignment covers.
pub assume_specification[ sat::Assignment::get ](assignment: &Assignment, lit: Literal) -> (value:
    bool)
    requires
        literal_view(lit).var < assignment_values(*assignment).len(),
    ensures
        value == literal_view(lit).holds(assignment_values(*assignment)),
;

/// The `!` of `sat::Literal`: the same variable with the polarity flipped.
#[verifier::external_body]
pub(crate) fn negate(lit: Literal) -> (flipped: Literal)
    ensures
        literal_view(flipped) == literal_view(lit).negate(),
{
    !lit
}

/// `sat::Instance::assert_any`: the literals handed in are appended as one
/// clause, in their order, behind the clauses already there; the variables
/// are untouched.
#[verifier::external_body]
pub(crate) fn assert_any(instance: &mut Instance, lits: &[Literal])
    ensures
        instance_num_vars(*final(instance)) == instance_num_vars(*old(instance)),
        instance_clauses(*final(instance)) == instance_clauses(*old(instance)).push(
            clause_view(lits@),
        ),
{
    instance.assert_any(lits)
}

} // verus!
