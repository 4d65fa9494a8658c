//! What holds of every session: what an asserted connective forces, which
//! formulas have no model, and which keep one.

use crate::formula::{clause_holds, Definition, Formula, Lit};
use crate::semantics::{
    lemma_and_gate, lemma_assertion, lemma_constant, lemma_eq_gate, lemma_or_gate, lemma_with_var,
    lemma_xor_gate,
};
use vstd::prelude::*;

verus! {

/// A formula without clauses is satisfiable: every valuation of its
/// variables is a model.
pub proof fn lemma_no_clauses_satisfiable(f: Formula)
    requires
        f.clauses.len() == 0,
    ensures
        f.satisfiable(),
{
    let m = Seq::new(f.num_vars, |i: int| true);
    assert(f.is_model(m));
}

/// Once `a /\ b` is asserted, every valuation that satisfies the formula
/// makes both `a` and `b` true, and satisfies what was there before.
pub proof fn lemma_asserted_and(f: Formula, a: Lit, b: Lit, m: Seq<bool>)
    requires
        f.with_and(a, b).with_assertion(f.next()).satisfied_by(m),
    ensures
        f.satisfied_by(m),
        a.holds(m),
        b.holds(m),
{
    lemma_assertion(f.with_and(a, b), f.next(), m);
    lemma_and_gate(f, a, b, m);
}

/// Once `a \/ b` is asserted, every valuation that satisfies the formula
/// makes `a` or `b` true.
pub proof fn lemma_asserted_or(f: Formula, a: Lit, b: Lit, m: Seq<bool>)
    requires
        f.with_or(a, b).with_assertion(f.next()).satisfied_by(m),
    ensures
        f.satisfied_by(m),
        a.holds(m) || b.holds(m),
{
    lemma_assertion(f.with_or(a, b), f.next(), m);
    lemma_or_gate(f, a, b, m);
}

/// Once the exclusive or of `a` and `b` is asserted, every valuation that
/// satisfies the formula makes exactly one of them true.
pub proof fn lemma_asserted_xor(f: Formula, a: Lit, b: Lit, m: Seq<bool>)
    requires
        f.with_xor(a, b).with_assertion(f.composed()).satisfied_by(m),
    ensures
        f.satisfied_by(m),
        a.holds(m) != b.holds(m),
{
    lemma_assertion(f.with_xor(a, b), f.composed(), m);
    lemma_xor_gate(f, a, b, m);
}

/// Once `a == b` is asserted, every valuation that satisfies the formula
/// gives `a` and `b` the same value.
pub proof fn lemma_asserted_equal(f: Formula, a: Lit, b: Lit, m: Seq<bool>)
    requires
        f.with_equal(a, b).satisfied_by(m),
    ensures
        f.satisfied_by(m),
        a.holds(m) == b.holds(m),
{
    lemma_assertion(f.with_eq(a, b), f.composed(), m);
    lemma_eq_gate(f, a, b, m);
}

/// Once `a != b` is asserted, every valuation that satisfies the formula
/// gives `a` and `b` different values.
pub proof fn lemma_asserted_distinct(f: Formula, a: Lit, b: Lit, m: Seq<bool>)
    requires
        f.with_distinct(a, b).satisfied_by(m),
    ensures
        f.satisfied_by(m),
        a.holds(m) != b.holds(m),
{
    lemma_assertion(f.with_eq(a, b), f.composed().negate(), m);
    lemma_eq_gate(f, a, b, m);
}

/// `a /\ b`, then `b /\ a`, then the assertion that the two differ.
pub open spec fn and_commuted(f: Formula, a: Lit, b: Lit) -> Formula {
    let ab = f.with_and(a, b);
    let ba = ab.with_and(b, a);
    ba.with_distinct(f.next(), ab.next())
}

/// `a \/ b`, then `b \/ a`, then the assertion that the two differ.
pub open spec fn or_commuted(f: Formula, a: Lit, b: Lit) -> Formula {
    let ab = f.with_or(a, b);
    let ba = ab.with_or(b, a);
    ba.with_distinct(f.next(), ab.next())
}

/// `(a /\ b) /\ c`, then `a /\ (b /\ c)`, then the assertion that the two
/// differ.
pub open spec fn and_associated(f: Formula, a: Lit, b: Lit, c: Lit) -> Formula {
    let ab = f.with_and(a, b);
    let ab_c = ab.with_and(f.next(), c);
    let bc = ab_c.with_and(b, c);
    let a_bc = bc.with_and(a, ab_c.next());
    a_bc.with_distinct(ab.next(), bc.next())
}

/// `(a \/ b) \/ c`, then `a \/ (b \/ c)`, then the assertion that the two
/// differ.
pub open spec fn or_associated(f: Formula, a: Lit, b: Lit, c: Lit) -> Formula {
    let ab = f.with_or(a, b);
    let ab_c = ab.with_or(f.next(), c);
    let bc = ab_c.with_or(b, c);
    let a_bc = bc.with_or(a, ab_c.next());
    a_bc.with_distinct(ab.next(), bc.next())
}

/// Conjunction commutes, though the two gates use different variables: with
/// `a /\ b` and `b /\ a` encoded and asserted to differ, no valuation
/// satisfies the formula.
pub proof fn lemma_and_commutes(f: Formula, a: Lit, b: Lit)
    ensures
        forall|m: Seq<bool>| !(#[trigger] and_commuted(f, a, b).satisfied_by(m)),
        !and_commuted(f, a, b).satisfiable(),
{
    assert forall|m: Seq<bool>| !(#[trigger] and_commuted(f, a, b).satisfied_by(m)) by {
        let ab = f.with_and(a, b);
        let ba = ab.with_and(b, a);
        if and_commuted(f, a, b).satisfied_by(m) {
            lemma_asserted_distinct(ba, f.next(), ab.next(), m);
            lemma_and_gate(ab, b, a, m);
            lemma_and_gate(f, a, b, m);
        }
    }
}

/// Disjunction commutes: with `a \/ b` and `b \/ a` encoded and asserted to
/// differ, no valuation satisfies the formula.
pub proof fn lemma_or_commutes(f: Formula, a: Lit, b: Lit)
    ensures
        forall|m: Seq<bool>| !(#[trigger] or_commuted(f, a, b).satisfied_by(m)),
        !or_commuted(f, a, b).satisfiable(),
{
    assert forall|m: Seq<bool>| !(#[trigger] or_commuted(f, a, b).satisfied_by(m)) by {
        let ab = f.with_or(a, b);
        let ba = ab.with_or(b, a);
        if or_commuted(f, a, b).satisfied_by(m) {
            lemma_asserted_distinct(ba, f.next(), ab.next(), m);
            lemma_or_gate(ab, b, a, m);
            lemma_or_gate(f, a, b, m);
        }
    }
}

/// Conjunction associates: with `(a /\ b) /\ c` and `a /\ (b /\ c)` encoded
/// and asserted to differ, no valuation satisfies the formula.
pub proof fn lemma_and_associates(f: Formula, a: Lit, b: Lit, c: Lit)
    ensures
        forall|m: Seq<bool>| !(#[trigger] and_associated(f, a, b, c).satisfied_by(m)),
        !and_associated(f, a, b, c).satisfiable(),
{
    assert forall|m: Seq<bool>| !(#[trigger] and_associated(f, a, b, c).satisfied_by(m)) by {
        let ab = f.with_and(a, b);
        let ab_c = ab.with_and(f.next(), c);
        let bc = ab_c.with_and(b, c);
        let a_bc = bc.with_and(a, ab_c.next());
        if and_associated(f, a, b, c).satisfied_by(m) {
            lemma_asserted_distinct(a_bc, ab.next(), bc.next(), m);
            lemma_and_gate(bc, a, ab_c.next(), m);
            lemma_and_gate(ab_c, b, c, m);
            lemma_and_gate(ab, f.next(), c, m);
            lemma_and_gate(f, a, b, m);
        }
    }
}

/// Disjunction associates: with `(a \/ b) \/ c` and `a \/ (b \/ c)` encoded
/// and asserted to differ, no valuation satisfies the formula.
pub proof fn lemma_or_associates(f: Formula, a: Lit, b: Lit, c: Lit)
    ensures
        forall|m: Seq<bool>| !(#[trigger] or_associated(f, a, b, c).satisfied_by(m)),
        !or_associated(f, a, b, c).satisfiable(),
{
    assert forall|m: Seq<bool>| !(#[trigger] or_associated(f, a, b, c).satisfied_by(m)) by {
        let ab = f.with_or(a, b);
        let ab_c = ab.with_or(f.next(), c);
        let bc = ab_c.with_or(b, c);
        let a_bc = bc.with_or(a, ab_c.next());
        if or_associated(f, a, b, c).satisfied_by(m) {
            lemma_asserted_distinct(a_bc, ab.next(), bc.next(), m);
            lemma_or_gate(bc, a, ab_c.next(), m);
            lemma_or_gate(ab_c, b, c, m);
            lemma_or_gate(ab, f.next(), c, m);
            lemma_or_gate(f, a, b, m);
        }
    }
}

/// Clauses look at owned variables only: two valuations that agree on the
/// variables of a well-formed formula satisfy it together or not at all.
pub proof fn lemma_agreeing_valuations(f: Formula, m: Seq<bool>, n: Seq<bool>)
    requires
        f.wf(),
        f.num_vars <= m.len(),
        f.num_vars <= n.len(),
        forall|v: int| 0 <= v < f.num_vars ==> m[v] == n[v],
    ensures
        f.satisfied_by(m) <==> f.satisfied_by(n),
{
    if f.satisfied_by(m) {
        lemma_agreement_one_way(f, m, n);
    }
    if f.satisfied_by(n) {
        lemma_agreement_one_way(f, n, m);
    }
}

proof fn lemma_agreement_one_way(f: Formula, m: Seq<bool>, n: Seq<bool>)
    requires
        f.wf(),
        f.num_vars <= m.len(),
        f.num_vars <= n.len(),
        forall|v: int| 0 <= v < f.num_vars ==> m[v] == n[v],
        f.satisfied_by(m),
    ensures
        f.satisfied_by(n),
{
    assert forall|i: int| 0 <= i < f.clauses.len() implies clause_holds(
        #[trigger] f.clauses[i],
        n,
    ) by {
        let clause = f.clauses[i];
        assert(clause_holds(clause, m));
        let j = choose|j: int| 0 <= j < clause.len() && (#[trigger] clause[j]).holds(m);
        assert(f.owns_clause(clause));
        assert(f.owns(clause[j]));
        assert(clause[j].holds(n));
    }
}

/// A definition keeps every model: the model of `f` that is handed in,
/// followed by the values that the new variables stand for, is a model of
/// the formula after `d`, which is well formed again.
pub proof fn lemma_definition_keeps_models(f: Formula, d: Definition, m: Seq<bool>) -> (extended:
    Seq<bool>)
    requires
        f.wf(),
        f.admits(d),
        f.is_model(m),
    ensures
        f.with_definition(d).wf(),
        f.with_definition(d).is_model(extended),
        m.is_prefix_of(extended),
{
    match d {
        Definition::Fresh => {
            f.lemma_with_var_wf();
            let extended = m.push(false);
            lemma_agreeing_valuations(f, m, extended);
            lemma_with_var(f, extended);
            extended
        },
        Definition::Constant(value) => {
            f.lemma_with_var_wf();
            f.with_var().lemma_with_clause_wf(
                seq![if value {
                    f.next()
                } else {
                    f.next().negate()
                }],
            );
            let extended = m.push(value);
            lemma_agreeing_valuations(f, m, extended);
            lemma_constant(f, value, extended);
            extended
        },
        Definition::And(a, b) => lemma_and_keeps_models(f, a, b, m),
        Definition::Or(a, b) => lemma_or_keeps_models(f, a, b, m),
        Definition::Xor(a, b) => {
            let either = f.with_or(a, b);
            let both = either.with_and(a, b);
            let m1 = lemma_or_keeps_models(f, a, b, m);
            f.lemma_gates_wf(a, b);
            let m2 = lemma_and_keeps_models(either, a, b, m1);
            either.lemma_gates_wf(a, b);
            lemma_and_keeps_models(both, f.next(), either.next().negate(), m2)
        },
        Definition::Eq(a, b) => {
            let left = f.with_or(a, b.negate());
            let right = left.with_or(a.negate(), b);
            let m1 = lemma_or_keeps_models(f, a, b.negate(), m);
            f.lemma_gates_wf(a, b.negate());
            let m2 = lemma_or_keeps_models(left, a.negate(), b, m1);
            left.lemma_gates_wf(a.negate(), b);
            lemma_and_keeps_models(right, f.next(), left.next(), m2)
        },
    }
}

proof fn lemma_and_keeps_models(f: Formula, a: Lit, b: Lit, m: Seq<bool>) -> (extended: Seq<bool>)
    requires
        f.wf(),
        f.owns(a),
        f.owns(b),
        f.is_model(m),
    ensures
        f.with_and(a, b).wf(),
        f.with_and(a, b).is_model(extended),
        extended == m.push(a.holds(m) && b.holds(m)),
{
    let extended = m.push(a.holds(m) && b.holds(m));
    f.lemma_gates_wf(a, b);
    lemma_agreeing_valuations(f, m, extended);
    lemma_and_gate(f, a, b, extended);
    extended
}

proof fn lemma_or_keeps_models(f: Formula, a: Lit, b: Lit, m: Seq<bool>) -> (extended: Seq<bool>)
    requires
        f.wf(),
        f.owns(a),
        f.owns(b),
        f.is_model(m),
    ensures
        f.with_or(a, b).wf(),
        f.with_or(a, b).is_model(extended),
        extended == m.push(a.holds(m) || b.holds(m)),
{
    let extended = m.push(a.holds(m) || b.holds(m));
    f.lemma_gates_wf(a, b);
    lemma_agreeing_valuations(f, m, extended);
    lemma_or_gate(f, a, b, extended);
    extended
}

/// Definitions keep a satisfiable formula satisfiable, however many are
/// made.
pub proof fn lemma_definitions_keep_satisfiable(f: Formula, ds: Seq<Definition>)
    requires
        f.wf(),
        f.satisfiable(),
        f.admits_all(ds),
    ensures
        f.with_definitions(ds).wf(),
        f.with_definitions(ds).satisfiable(),
    decreases ds.len(),
{
    if ds.len() > 0 {
        let before = f.with_definitions(ds.drop_last());
        lemma_definitions_keep_satisfiable(f, ds.drop_last());
        let m = choose|m: Seq<bool>| before.is_model(m);
        let extended = lemma_definition_keeps_models(before, ds.last(), m);
        assert(before.with_definition(ds.last()).is_model(extended));
    }
}

/// A session in which nothing was asserted is satisfiable, whatever
/// variables, constants and connectives were made in it.
pub proof fn lemma_unasserted_session_satisfiable(ds: Seq<Definition>)
    requires
        Formula::empty().admits_all(ds),
    ensures
        Formula::empty().with_definitions(ds).satisfiable(),
{
    lemma_no_clauses_satisfiable(Formula::empty());
    lemma_definitions_keep_satisfiable(Formula::empty(), ds);
}

} // verus!
