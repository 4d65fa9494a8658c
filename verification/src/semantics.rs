//! What each encoding asks of a valuation, exactly.

use crate::formula::{clause_holds, Formula, Lit};
use vstd::prelude::*;

verus! {

/// A unit clause holds exactly when its literal does.
pub proof fn lemma_unit_clause(a: Lit, m: Seq<bool>)
    ensures
        clause_holds(seq![a], m) <==> a.holds(m),
{
    let c = seq![a];
    assert(c[0] == a);
}

/// A clause of two literals holds exactly when one of them does.
pub proof fn lemma_binary_clause(a: Lit, b: Lit, m: Seq<bool>)
    ensures
        clause_holds(seq![a, b], m) <==> a.holds(m) || b.holds(m),
{
    let c = seq![a, b];
    assert(c[0] == a && c[1] == b);
}

/// A clause of three literals holds exactly when one of them does.
pub proof fn lemma_ternary_clause(a: Lit, b: Lit, c: Lit, m: Seq<bool>)
    ensures
        clause_holds(seq![a, b, c], m) <==> a.holds(m) || b.holds(m) || c.holds(m),
{
    let s = seq![a, b, c];
    assert(s[0] == a && s[1] == b && s[2] == c);
}

/// Appending a clause adds exactly that clause to what a valuation must
/// satisfy.
pub proof fn lemma_with_clause(f: Formula, clause: Seq<Lit>, m: Seq<bool>)
    ensures
        f.with_clause(clause).satisfied_by(m) <==> f.satisfied_by(m) && clause_holds(clause, m),
{
    let g = f.with_clause(clause);
    let n = f.clauses.len() as int;
    assert(g.clauses[n] == clause);
    if g.satisfied_by(m) {
        assert forall|i: int| 0 <= i < f.clauses.len() implies clause_holds(
            #[trigger] f.clauses[i],
            m,
        ) by {
            assert(g.clauses[i] == f.clauses[i]);
        }
    }
    if f.satisfied_by(m) && clause_holds(clause, m) {
        assert forall|i: int| 0 <= i < g.clauses.len() implies clause_holds(
            #[trigger] g.clauses[i],
            m,
        ) by {
            if i < n {
                assert(g.clauses[i] == f.clauses[i]);
            }
        }
    }
}

/// Allocating a variable asks nothing new of a valuation.
pub proof fn lemma_with_var(f: Formula, m: Seq<bool>)
    ensures
        f.with_var().satisfied_by(m) <==> f.satisfied_by(m),
{
    assert(f.with_var().clauses == f.clauses);
}

/// The AND gate is exact: a valuation satisfies `f.with_and(a, b)` exactly
/// when it satisfies `f` and gives the fresh variable the conjunction of `a`
/// and `b`.
pub proof fn lemma_and_gate(f: Formula, a: Lit, b: Lit, m: Seq<bool>)
    ensures
        f.with_and(a, b).satisfied_by(m) <==> f.satisfied_by(m) && (f.next().holds(m) <==> a.holds(
            m,
        ) && b.holds(m)),
{
    let l = f.next();
    let f0 = f.with_var();
    let f1 = f0.with_clause(seq![a.negate(), b.negate(), l]);
    let f2 = f1.with_clause(seq![a, l.negate()]);
    lemma_with_clause(f0, seq![a.negate(), b.negate(), l], m);
    lemma_with_clause(f1, seq![a, l.negate()], m);
    lemma_with_clause(f2, seq![b, l.negate()], m);
    lemma_ternary_clause(a.negate(), b.negate(), l, m);
    lemma_binary_clause(a, l.negate(), m);
    lemma_binary_clause(b, l.negate(), m);
}

/// The OR gate is exact: a valuation satisfies `f.with_or(a, b)` exactly when
/// it satisfies `f` and gives the fresh variable the disjunction of `a` and
/// `b`.
pub proof fn lemma_or_gate(f: Formula, a: Lit, b: Lit, m: Seq<bool>)
    ensures
        f.with_or(a, b).satisfied_by(m) <==> f.satisfied_by(m) && (f.next().holds(m) <==> a.holds(m)
            || b.holds(m)),
{
    let l = f.next();
    let f0 = f.with_var();
    let f1 = f0.with_clause(seq![a, b, l.negate()]);
    let f2 = f1.with_clause(seq![a.negate(), l]);
    lemma_with_clause(f0, seq![a, b, l.negate()], m);
    lemma_with_clause(f1, seq![a.negate(), l], m);
    lemma_with_clause(f2, seq![b.negate(), l], m);
    lemma_ternary_clause(a, b, l.negate(), m);
    lemma_binary_clause(a.negate(), l, m);
    lemma_binary_clause(b.negate(), l, m);
}

/// A constant is exact: a valuation satisfies `f.with_constant(value)`
/// exactly when it satisfies `f` and gives the fresh variable `value`.
pub proof fn lemma_constant(f: Formula, value: bool, m: Seq<bool>)
    ensures
        f.with_constant(value).satisfied_by(m) <==> f.satisfied_by(m) && (f.next().holds(m)
            <==> value),
{
    let l = f.next();
    let unit = if value {
        l
    } else {
        l.negate()
    };
    lemma_with_clause(f.with_var(), seq![unit], m);
    lemma_unit_clause(unit, m);
}

/// An assertion is exact: a valuation satisfies `f.with_assertion(lit)`
/// exactly when it satisfies `f` and makes `lit` true.
pub proof fn lemma_assertion(f: Formula, lit: Lit, m: Seq<bool>)
    ensures
        f.with_assertion(lit).satisfied_by(m) <==> f.satisfied_by(m) && lit.holds(m),
{
    lemma_with_clause(f, seq![lit], m);
    lemma_unit_clause(lit, m);
}

/// The composed exclusive or is exact: a valuation satisfies
/// `f.with_xor(a, b)` exactly when it satisfies `f`, gives the two auxiliary
/// variables the disjunction and the conjunction of `a` and `b`, and gives
/// `f.composed()` their exclusive or.
pub proof fn lemma_xor_gate(f: Formula, a: Lit, b: Lit, m: Seq<bool>)
    ensures
        f.with_xor(a, b).satisfied_by(m) <==> {
            &&& f.satisfied_by(m)
            &&& f.next().holds(m) <==> a.holds(m) || b.holds(m)
            &&& f.with_or(a, b).next().holds(m) <==> a.holds(m) && b.holds(m)
            &&& f.composed().holds(m) <==> a.holds(m) != b.holds(m)
        },
{
    let either = f.with_or(a, b);
    let both = either.with_and(a, b);
    lemma_or_gate(f, a, b, m);
    lemma_and_gate(either, a, b, m);
    lemma_and_gate(both, f.next(), either.next().negate(), m);
}

/// The composed equality is exact: a valuation satisfies `f.with_eq(a, b)`
/// exactly when it satisfies `f`, gives the two auxiliary variables the two
/// implications between `a` and `b`, and makes `f.composed()` true exactly
/// when `a` and `b` have the same value.
pub proof fn lemma_eq_gate(f: Formula, a: Lit, b: Lit, m: Seq<bool>)
    ensures
        f.with_eq(a, b).satisfied_by(m) <==> {
            &&& f.satisfied_by(m)
            &&& f.next().holds(m) <==> a.holds(m) || !b.holds(m)
            &&& f.with_or(a, b.negate()).next().holds(m) <==> !a.holds(m) || b.holds(m)
            &&& f.composed().holds(m) <==> a.holds(m) == b.holds(m)
        },
{
    let left = f.with_or(a, b.negate());
    let right = left.with_or(a.negate(), b);
    lemma_or_gate(f, a, b.negate(), m);
    lemma_or_gate(left, a.negate(), b, m);
    lemma_and_gate(right, f.next(), left.next(), m);
}

} // verus!
