//! The mathematical model of a formula store: literals, clauses, and the
//! valuations that satisfy them.
//!
//! Everything here is specification. A valuation is a `Seq<bool>` that gives
//! variable `i` the value at index `i`.

use vstd::prelude::*;

verus! {

/// A variable together with a polarity.
pub struct Lit {
    pub var: nat,
    pub negated: bool,
}

impl Lit {
    /// The asserted literal of variable `var`.
    pub open spec fn positive(var: nat) -> Lit {
        Lit { var, negated: false }
    }

    /// The same variable with the polarity flipped.
    pub open spec fn negate(self) -> Lit {
        Lit { var: self.var, negated: !self.negated }
    }

    /// The truth value of this literal under the valuation `m`.
    pub open spec fn holds(self, m: Seq<bool>) -> bool {
        m[self.var as int] != self.negated
    }
}

/// A clause is a disjunction: it holds when one of its literals does.
pub open spec fn clause_holds(clause: Seq<Lit>, m: Seq<bool>) -> bool {
    exists|i: int| 0 <= i < clause.len() && (#[trigger] clause[i]).holds(m)
}

/// An operation that brings in variables and says at most what they stand
/// for. It asks nothing of the variables that were there before.
pub enum Definition {
    /// A variable under no constraint.
    Fresh,
    /// A variable forced to a value.
    Constant(bool),
    /// A variable that stands for a conjunction.
    And(Lit, Lit),
    /// A variable that stands for a disjunction.
    Or(Lit, Lit),
    /// Three variables, the last of which stands for an exclusive or.
    Xor(Lit, Lit),
    /// Three variables, the last of which stands for an equality.
    Eq(Lit, Lit),
}

/// The variables allocated so far and the clauses asserted so far, in order.
pub struct Formula {
    pub num_vars: nat,
    pub clauses: Seq<Seq<Lit>>,
}

impl Formula {
    /// No variables, no clauses.
    pub open spec fn empty() -> Formula {
        Formula { num_vars: 0, clauses: Seq::empty() }
    }

    /// Whether `lit` speaks of a variable that this formula has allocated.
    pub open spec fn owns(self, lit: Lit) -> bool {
        lit.var < self.num_vars
    }

    /// Whether every literal of `clause` is owned.
    pub open spec fn owns_clause(self, clause: Seq<Lit>) -> bool {
        forall|j: int| 0 <= j < clause.len() ==> self.owns(#[trigger] clause[j])
    }

    /// Every literal of every clause speaks of an allocated variable.
    pub open spec fn wf(self) -> bool {
        forall|i: int| 0 <= i < self.clauses.len() ==> self.owns_clause(#[trigger] self.clauses[i])
    }

    /// Every clause holds under `m`.
    pub open spec fn satisfied_by(self, m: Seq<bool>) -> bool {
        forall|i: int| 0 <= i < self.clauses.len() ==> clause_holds(#[trigger] self.clauses[i], m)
    }

    /// `m` gives a value to exactly the allocated variables and satisfies
    /// every clause.
    pub open spec fn is_model(self, m: Seq<bool>) -> bool {
        m.len() == self.num_vars && self.satisfied_by(m)
    }

    /// Whether the formula has a model.
    pub open spec fn satisfiable(self) -> bool {
        exists|m: Seq<bool>| self.is_model(m)
    }

    /// `self` was reached from `earlier` by allocating variables and
    /// appending clauses only.
    pub open spec fn extends(self, earlier: Formula) -> bool {
        &&& earlier.num_vars <= self.num_vars
        &&& earlier.clauses.len() <= self.clauses.len()
        &&& forall|i: int|
            0 <= i < earlier.clauses.len() ==> #[trigger] self.clauses[i] == earlier.clauses[i]
    }

    /// The asserted literal of the variable that the next allocation yields.
    pub open spec fn next(self) -> Lit {
        Lit::positive(self.num_vars)
    }

    /// One more variable, the clauses unchanged.
    pub open spec fn with_var(self) -> Formula {
        Formula { num_vars: self.num_vars + 1, clauses: self.clauses }
    }

    /// One more clause at the end, the variables unchanged.
    pub open spec fn with_clause(self, clause: Seq<Lit>) -> Formula {
        Formula { num_vars: self.num_vars, clauses: self.clauses.push(clause) }
    }

    /// The unit clause that makes `lit` a hard constraint.
    pub open spec fn with_assertion(self, lit: Lit) -> Formula {
        self.with_clause(seq![lit])
    }

    /// A fresh variable `self.next()` forced to `value` by a unit clause.
    pub open spec fn with_constant(self, value: bool) -> Formula {
        let l = self.next();
        self.with_var().with_clause(
            seq![if value {
                l
            } else {
                l.negate()
            }],
        )
    }

    /// A fresh variable `l = self.next()` with the three clauses of `l <=> a /\ b`.
    pub open spec fn with_and(self, a: Lit, b: Lit) -> Formula {
        let l = self.next();
        self.with_var().with_clause(seq![a.negate(), b.negate(), l]).with_clause(
            seq![a, l.negate()],
        ).with_clause(seq![b, l.negate()])
    }

    /// A fresh variable `l = self.next()` with the three clauses of `l <=> a \/ b`.
    pub open spec fn with_or(self, a: Lit, b: Lit) -> Formula {
        let l = self.next();
        self.with_var().with_clause(seq![a, b, l.negate()]).with_clause(
            seq![a.negate(), l],
        ).with_clause(seq![b.negate(), l])
    }

    /// Exclusive or by composition, `(a \/ b) /\ ~(a /\ b)`: an OR gate, an
    /// AND gate, and the AND gate that joins them. The result is
    /// `self.composed()`.
    pub open spec fn with_xor(self, a: Lit, b: Lit) -> Formula {
        let either = self.with_or(a, b);
        let both = either.with_and(a, b);
        both.with_and(self.next(), either.next().negate())
    }

    /// Equality by composition, `(a \/ ~b) /\ (~a \/ b)`: two OR gates and the
    /// AND gate that joins them. The result is `self.composed()`.
    pub open spec fn with_eq(self, a: Lit, b: Lit) -> Formula {
        let left = self.with_or(a, b.negate());
        let right = left.with_or(a.negate(), b);
        right.with_and(self.next(), left.next())
    }

    /// The literal that stands for a composed connective (`with_xor`,
    /// `with_eq`): its third fresh variable.
    pub open spec fn composed(self) -> Lit {
        Lit::positive(self.num_vars + 2)
    }

    /// The encoding of `a == b`, asserted.
    pub open spec fn with_equal(self, a: Lit, b: Lit) -> Formula {
        self.with_eq(a, b).with_assertion(self.composed())
    }

    /// The encoding of `a == b`, with its negation asserted.
    pub open spec fn with_distinct(self, a: Lit, b: Lit) -> Formula {
        self.with_eq(a, b).with_assertion(self.composed().negate())
    }

    /// Whether the operands of `d` are owned.
    pub open spec fn admits(self, d: Definition) -> bool {
        match d {
            Definition::Fresh => true,
            Definition::Constant(_) => true,
            Definition::And(a, b) => self.owns(a) && self.owns(b),
            Definition::Or(a, b) => self.owns(a) && self.owns(b),
            Definition::Xor(a, b) => self.owns(a) && self.owns(b),
            Definition::Eq(a, b) => self.owns(a) && self.owns(b),
        }
    }

    /// The formula after `d`.
    pub open spec fn with_definition(self, d: Definition) -> Formula {
        match d {
            Definition::Fresh => self.with_var(),
            Definition::Constant(value) => self.with_constant(value),
            Definition::And(a, b) => self.with_and(a, b),
            Definition::Or(a, b) => self.with_or(a, b),
            Definition::Xor(a, b) => self.with_xor(a, b),
            Definition::Eq(a, b) => self.with_eq(a, b),
        }
    }

    /// Whether each of `ds` is admitted by the formula that those before it
    /// have made.
    pub open spec fn admits_all(self, ds: Seq<Definition>) -> bool
        decreases ds.len(),
    {
        ds.len() == 0 || (self.admits_all(ds.drop_last()) && self.with_definitions(
            ds.drop_last(),
        ).admits(ds.last()))
    }

    /// The formula after `ds`, one after the other.
    pub open spec fn with_definitions(self, ds: Seq<Definition>) -> Formula
        decreases ds.len(),
    {
        if ds.len() == 0 {
            self
        } else {
            self.with_definitions(ds.drop_last()).with_definition(ds.last())
        }
    }

    /// The gates and the composed connectives only allocate and append.
    pub proof fn lemma_gates_extend(self, a: Lit, b: Lit)
        ensures
            self.with_and(a, b).extends(self),
            self.with_or(a, b).extends(self),
            self.with_xor(a, b).extends(self),
            self.with_eq(a, b).extends(self),
    {
    }

    /// Allocating a variable keeps a formula well formed, and what it owned
    /// it still owns.
    pub proof fn lemma_with_var_wf(self)
        requires
            self.wf(),
        ensures
            self.with_var().wf(),
            self.with_var().owns(self.next()),
            forall|lit: Lit| self.owns(lit) ==> #[trigger] self.with_var().owns(lit),
    {
        let g = self.with_var();
        assert forall|i: int| 0 <= i < g.clauses.len() implies g.owns_clause(
            #[trigger] g.clauses[i],
        ) by {
            assert(self.owns_clause(self.clauses[i]));
        }
    }

    /// A conjunction or a disjunction of owned literals keeps a formula well
    /// formed, and what it owned it still owns.
    pub proof fn lemma_gates_wf(self, a: Lit, b: Lit)
        requires
            self.wf(),
            self.owns(a),
            self.owns(b),
        ensures
            self.with_and(a, b).wf(),
            self.with_or(a, b).wf(),
            self.with_and(a, b).owns(self.next()),
            self.with_or(a, b).owns(self.next()),
            forall|lit: Lit| self.owns(lit) ==> #[trigger] self.with_and(a, b).owns(lit),
            forall|lit: Lit| self.owns(lit) ==> #[trigger] self.with_or(a, b).owns(lit),
    {
        let l = self.next();
        let f0 = self.with_var();
        self.lemma_with_var_wf();
        let and1 = f0.with_clause(seq![a.negate(), b.negate(), l]);
        let and2 = and1.with_clause(seq![a, l.negate()]);
        f0.lemma_with_clause_wf(seq![a.negate(), b.negate(), l]);
        and1.lemma_with_clause_wf(seq![a, l.negate()]);
        and2.lemma_with_clause_wf(seq![b, l.negate()]);
        let or1 = f0.with_clause(seq![a, b, l.negate()]);
        let or2 = or1.with_clause(seq![a.negate(), l]);
        f0.lemma_with_clause_wf(seq![a, b, l.negate()]);
        or1.lemma_with_clause_wf(seq![a.negate(), l]);
        or2.lemma_with_clause_wf(seq![b.negate(), l]);
    }

    /// Appending a clause of owned literals keeps a formula well formed.
    pub proof fn lemma_with_clause_wf(self, clause: Seq<Lit>)
        requires
            self.wf(),
            self.owns_clause(clause),
        ensures
            self.with_clause(clause).wf(),
    {
        let g = self.with_clause(clause);
        assert forall|i: int| 0 <= i < g.clauses.len() implies g.owns_clause(
            #[trigger] g.clauses[i],
        ) by {
            if i < self.clauses.len() {
                assert(g.clauses[i] == self.clauses[i]);
                assert(self.owns_clause(self.clauses[i]));
            }
        }
    }
}

} // verus!
