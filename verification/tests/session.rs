use ndmachine::{
    init, ndassert, ndassert_eq, ndassert_ne, ndbool, solve_by, NdEq, NdError, NdMachine,
};
use sat::solver::{Dimacs, Solver};
use sat::{Assignment, Instance};

/// The instance in DIMACS form, as the `sat` crate writes it.
fn dimacs_of(instance: &Instance) -> String {
    let writer = Dimacs::new(|| unreachable!());
    let mut text: Vec<u8> = Vec::new();
    writer.write_instance(&mut text, instance);
    String::from_utf8(text).unwrap()
}

/// A backend that tries every valuation, lowest first.
struct Exhaustive;

impl Solver for Exhaustive {
    fn solve(&self, instance: &Instance) -> Option<Assignment> {
        let text = dimacs_of(instance);
        let mut lines = text.lines();
        let header: Vec<&str> = lines.next().unwrap().split_whitespace().collect();
        let num_vars: usize = header[2].parse().unwrap();
        let clauses: Vec<Vec<i64>> = lines
            .map(|line| {
                line.split_whitespace()
                    .map(|token| token.parse::<i64>().unwrap())
                    .filter(|n| *n != 0)
                    .collect()
            })
            .collect();
        assert!(num_vars < 24);
        let limit: u32 = 1u32 << num_vars;
        let mut bits: u32 = 0;
        while bits < limit {
            let holds = |n: &i64| -> bool {
                let set: bool = (bits >> (n.unsigned_abs() - 1)) & 1 == 1;
                set == (*n > 0)
            };
            if clauses.iter().all(|clause| clause.iter().any(holds)) {
                let mut found = String::from("SAT\n");
                for v in 0..num_vars {
                    let sign: &str = if (bits >> v) & 1 == 1 { "" } else { "-" };
                    found.push_str(&format!("{}{} ", sign, v + 1));
                }
                found.push_str("0\n");
                let mut bytes: &[u8] = found.as_bytes();
                return Dimacs::new(|| unreachable!()).read_solution(&mut bytes, num_vars);
            }
            bits += 1;
        }
        None
    }
}

fn solve(machine: &mut NdMachine) -> bool {
    solve_by(machine, |instance: &Instance| Exhaustive.solve(instance))
}

/// The formula of `machine` in DIMACS form. The solution is dropped.
fn formula_text(machine: &mut NdMachine) -> String {
    let mut text = String::new();
    solve_by(machine, |instance: &Instance| {
        text = dimacs_of(instance);
        None
    });
    text
}

fn session() -> NdMachine {
    let mut slot: Option<NdMachine> = None;
    init(&mut slot);
    slot.unwrap()
}

#[test]
fn test_solve_no_constraint() {
    let mut slot: Option<NdMachine> = None;
    init(&mut slot);
    let machine = NdMachine::with(&mut slot).unwrap();
    assert!(solve(machine));
}

#[test]
fn test_and() {
    let mut slot: Option<NdMachine> = None;
    init(&mut slot);
    let machine = NdMachine::with(&mut slot).unwrap();
    let b0 = ndbool::fresh(machine);
    let b1 = ndbool::fresh(machine);
    let both = b0.bitand(b1, machine);
    ndassert(machine, both);
    assert!(solve(machine));
    assert!(b0.value(machine).unwrap() && b1.value(machine).unwrap());
}

#[test]
fn test_or() {
    let mut slot: Option<NdMachine> = None;
    init(&mut slot);
    let machine = NdMachine::with(&mut slot).unwrap();
    let b0 = ndbool::fresh(machine);
    let b1 = ndbool::fresh(machine);
    let either = b0.bitor(b1, machine);
    ndassert(machine, either);
    assert!(solve(machine));
    assert!(b0.value(machine).unwrap() || b1.value(machine).unwrap());
}

#[test]
fn test_xor() {
    let mut slot: Option<NdMachine> = None;
    init(&mut slot);
    let machine = NdMachine::with(&mut slot).unwrap();
    let b0 = ndbool::fresh(machine);
    let b1 = ndbool::fresh(machine);
    let one = b0.bitxor(b1, machine);
    ndassert(machine, one);
    assert!(solve(machine));
    assert!(b0.value(machine).unwrap() ^ b1.value(machine).unwrap());
}

#[test]
fn test_and_comm() {
    let mut slot: Option<NdMachine> = None;
    init(&mut slot);
    let machine = NdMachine::with(&mut slot).unwrap();
    let b0 = ndbool::fresh(machine);
    let b1 = ndbool::fresh(machine);
    let lhs = b0.bitand(b1, machine);
    let rhs = b1.bitand(b0, machine);
    ndassert_ne(machine, lhs, rhs);
    assert!(!solve(machine));
}

#[test]
fn test_and_assoc() {
    let mut slot: Option<NdMachine> = None;
    init(&mut slot);
    let machine = NdMachine::with(&mut slot).unwrap();
    let b0 = ndbool::fresh(machine);
    let b1 = ndbool::fresh(machine);
    let b2 = ndbool::fresh(machine);
    let lhs = b0.bitand(b1, machine).bitand(b2, machine);
    let inner = b1.bitand(b2, machine);
    let rhs = b0.bitand(inner, machine);
    ndassert_ne(machine, lhs, rhs);
    assert!(!solve(machine));
}

#[test]
fn test_or_comm() {
    let mut slot: Option<NdMachine> = None;
    init(&mut slot);
    let machine = NdMachine::with(&mut slot).unwrap();
    let b0 = ndbool::fresh(machine);
    let b1 = ndbool::fresh(machine);
    let lhs = b0.bitor(b1, machine);
    let rhs = b1.bitor(b0, machine);
    ndassert_ne(machine, lhs, rhs);
    assert!(!solve(machine));
}

#[test]
fn test_or_assoc() {
    let mut slot: Option<NdMachine> = None;
    init(&mut slot);
    let machine = NdMachine::with(&mut slot).unwrap();
    let b0 = ndbool::fresh(machine);
    let b1 = ndbool::fresh(machine);
    let b2 = ndbool::fresh(machine);
    let lhs = b0.bitor(b1, machine).bitor(b2, machine);
    let inner = b1.bitor(b2, machine);
    let rhs = b0.bitor(inner, machine);
    ndassert_ne(machine, lhs, rhs);
    assert!(!solve(machine));
}

#[test]
fn with_refuses_an_empty_slot() {
    let mut slot: Option<NdMachine> = None;
    assert!(matches!(NdMachine::with(&mut slot), Err(NdError::UninitializedMachine)));
    assert!(slot.is_none());
    init(&mut slot);
    assert!(NdMachine::with(&mut slot).is_ok());
}

#[test]
fn with_hands_out_the_session_in_the_slot() {
    let mut slot: Option<NdMachine> = None;
    init(&mut slot);
    {
        let machine = NdMachine::with(&mut slot).unwrap();
        ndbool::fresh(machine);
        ndbool::fresh(machine);
    }
    let machine = NdMachine::with(&mut slot).unwrap();
    assert_eq!(machine.num_vars(), 2);
}

#[test]
fn init_discards_the_session_that_was_there() {
    let mut slot: Option<NdMachine> = None;
    init(&mut slot);
    {
        let machine = NdMachine::with(&mut slot).unwrap();
        let b = ndbool::t(machine);
        let c = ndbool::f(machine);
        ndassert_eq(machine, b, c);
        assert!(!solve(machine));
    }
    init(&mut slot);
    let machine = NdMachine::with(&mut slot).unwrap();
    assert_eq!(machine.num_vars(), 0);
    assert!(!machine.has_solution());
    assert_eq!(formula_text(machine), "p cnf 0 0\n");
    assert!(solve(machine));
}

#[test]
fn new_session_is_empty() {
    let mut machine = NdMachine::new();
    assert_eq!(machine.num_vars(), 0);
    assert!(!machine.has_solution());
    assert_eq!(formula_text(&mut machine), "p cnf 0 0\n");
}

#[test]
fn error_messages() {
    assert_eq!(
        NdError::UninitializedMachine.message(),
        "ndmachine::init() should be called first"
    );
    assert_eq!(NdError::NoSolutionAvailable.message(), "No solution!");
    assert_ne!(NdError::UninitializedMachine, NdError::NoSolutionAvailable);
}

#[test]
fn value_needs_a_solution() {
    let mut machine = session();
    let b = ndbool::fresh(&mut machine);
    assert_eq!(b.value(&machine), Err(NdError::NoSolutionAvailable));
    assert!(solve(&mut machine));
    assert!(machine.has_solution());
    assert!(b.value(&machine).is_ok());
}

#[test]
fn failed_solve_leaves_no_solution() {
    let mut machine = session();
    let b = ndbool::fresh(&mut machine);
    assert!(solve(&mut machine));
    assert!(machine.has_solution());
    assert!(!solve_by(&mut machine, |_: &Instance| None));
    assert!(!machine.has_solution());
    assert_eq!(b.value(&machine), Err(NdError::NoSolutionAvailable));
}

#[test]
fn unsatisfiable_formula_is_reported_as_false() {
    let mut machine = session();
    let b = ndbool::fresh(&mut machine);
    ndassert(&mut machine, b);
    ndassert(&mut machine, b.not());
    assert!(!solve(&mut machine));
    assert_eq!(b.value(&machine), Err(NdError::NoSolutionAvailable));
}

#[test]
fn record_keeps_what_the_backend_returned() {
    let mut machine = session();
    let b = ndbool::t(&mut machine);
    let mut found: Option<Assignment> = None;
    solve_by(&mut machine, |instance: &Instance| {
        found = Exhaustive.solve(instance);
        None
    });
    assert!(!machine.has_solution());
    assert!(machine.record(found));
    assert_eq!(b.value(&machine), Ok(true));
    assert!(!machine.record(None));
    assert_eq!(b.value(&machine), Err(NdError::NoSolutionAvailable));
}

#[test]
fn constants_have_their_values() {
    let mut machine = session();
    let yes = ndbool::t(&mut machine);
    let no = ndbool::f(&mut machine);
    assert!(solve(&mut machine));
    assert_eq!(yes.value(&machine), Ok(true));
    assert_eq!(no.value(&machine), Ok(false));
}

#[test]
fn constants_are_independent_variables() {
    let mut machine = session();
    ndbool::t(&mut machine);
    ndbool::t(&mut machine);
    ndbool::f(&mut machine);
    assert_eq!(machine.num_vars(), 3);
    assert_eq!(formula_text(&mut machine), "p cnf 3 3\n1 0\n2 0\n-3 0\n");
}

#[test]
fn fresh_asserts_nothing() {
    let mut machine = session();
    ndbool::fresh(&mut machine);
    ndbool::fresh(&mut machine);
    assert_eq!(machine.num_vars(), 2);
    assert_eq!(formula_text(&mut machine), "p cnf 2 0\n");
}

#[test]
fn not_flips_the_value_and_allocates_nothing() {
    let mut machine = session();
    let b = ndbool::fresh(&mut machine);
    let n = b.not();
    assert_eq!(machine.num_vars(), 1);
    ndassert(&mut machine, n);
    assert_eq!(formula_text(&mut machine), "p cnf 1 1\n-1 0\n");
    assert!(solve(&mut machine));
    assert_eq!(b.value(&machine), Ok(false));
    assert_eq!(n.value(&machine), Ok(true));
    assert_eq!(n.not().value(&machine), Ok(false));
}

#[test]
fn and_gate_clauses() {
    let mut machine = session();
    let a = ndbool::fresh(&mut machine);
    let b = ndbool::fresh(&mut machine);
    a.bitand(b, &mut machine);
    assert_eq!(machine.num_vars(), 3);
    assert_eq!(formula_text(&mut machine), "p cnf 3 3\n-1 -2 3 0\n1 -3 0\n2 -3 0\n");
}

#[test]
fn or_gate_clauses() {
    let mut machine = session();
    let a = ndbool::fresh(&mut machine);
    let b = ndbool::fresh(&mut machine);
    a.bitor(b, &mut machine);
    assert_eq!(machine.num_vars(), 3);
    assert_eq!(formula_text(&mut machine), "p cnf 3 3\n1 2 -3 0\n-1 3 0\n-2 3 0\n");
}

#[test]
fn xor_is_composed_of_three_gates() {
    let mut machine = session();
    let a = ndbool::fresh(&mut machine);
    let b = ndbool::fresh(&mut machine);
    let x = a.bitxor(b, &mut machine);
    assert_eq!(machine.num_vars(), 5);
    ndassert(&mut machine, x);
    assert_eq!(
        formula_text(&mut machine),
        "p cnf 5 10\n\
         1 2 -3 0\n-1 3 0\n-2 3 0\n\
         -1 -2 4 0\n1 -4 0\n2 -4 0\n\
         -3 4 5 0\n3 -5 0\n-4 -5 0\n\
         5 0\n"
    );
}

#[test]
fn equality_is_composed_of_three_gates() {
    let mut machine = session();
    let a = ndbool::fresh(&mut machine);
    let b = ndbool::fresh(&mut machine);
    let e = a.ndeq(&b, &mut machine);
    assert_eq!(machine.num_vars(), 5);
    ndassert(&mut machine, e);
    assert_eq!(
        formula_text(&mut machine),
        "p cnf 5 10\n\
         1 -2 -3 0\n-1 3 0\n2 3 0\n\
         -1 2 -4 0\n1 4 0\n-2 4 0\n\
         -3 -4 5 0\n3 -5 0\n4 -5 0\n\
         5 0\n"
    );
}

#[test]
fn assert_eq_and_assert_ne_assert_the_encoding() {
    let mut machine = session();
    let a = ndbool::fresh(&mut machine);
    let b = ndbool::fresh(&mut machine);
    ndassert_eq(&mut machine, a, b);
    let text = formula_text(&mut machine);
    assert!(text.starts_with("p cnf 5 10\n"));
    assert!(text.ends_with("4 -5 0\n5 0\n"));

    let mut machine = session();
    let a = ndbool::fresh(&mut machine);
    let b = ndbool::fresh(&mut machine);
    ndassert_ne(&mut machine, a, b);
    let text = formula_text(&mut machine);
    assert!(text.starts_with("p cnf 5 10\n"));
    assert!(text.ends_with("4 -5 0\n-5 0\n"));
}

#[test]
fn ndne_is_the_negation_of_ndeq() {
    let mut machine = session();
    let a = ndbool::fresh(&mut machine);
    let b = ndbool::fresh(&mut machine);
    let e = a.ndeq(&b, &mut machine);
    let d = a.ndne(&b, &mut machine);
    assert_eq!(machine.num_vars(), 8);
    assert!(solve(&mut machine));
    let same: bool = a.value(&machine).unwrap() == b.value(&machine).unwrap();
    assert_eq!(e.value(&machine), Ok(same));
    assert_eq!(d.value(&machine), Ok(!same));
}

#[test]
fn asserted_equality_forces_equal_values() {
    let mut machine = session();
    let a = ndbool::fresh(&mut machine);
    let yes = ndbool::t(&mut machine);
    ndassert_eq(&mut machine, a, yes);
    assert!(solve(&mut machine));
    assert_eq!(a.value(&machine), Ok(true));

    let mut machine = session();
    let a = ndbool::fresh(&mut machine);
    let yes = ndbool::t(&mut machine);
    ndassert_ne(&mut machine, a, yes);
    assert!(solve(&mut machine));
    assert_eq!(a.value(&machine), Ok(false));
}

#[test]
fn gates_are_exact_under_every_input() {
    for bits in 0u8..4 {
        let left: bool = bits & 1 == 1;
        let right: bool = bits & 2 == 2;
        let mut machine = session();
        let a = if left { ndbool::t(&mut machine) } else { ndbool::f(&mut machine) };
        let b = if right { ndbool::t(&mut machine) } else { ndbool::f(&mut machine) };
        let and = a.bitand(b, &mut machine);
        let or = a.bitor(b, &mut machine);
        let xor = a.bitxor(b, &mut machine);
        let eq = a.ndeq(&b, &mut machine);
        let ne = a.ndne(&b, &mut machine);
        assert!(solve(&mut machine));
        assert_eq!(and.value(&machine), Ok(left && right));
        assert_eq!(or.value(&machine), Ok(left || right));
        assert_eq!(xor.value(&machine), Ok(left ^ right));
        assert_eq!(eq.value(&machine), Ok(left == right));
        assert_eq!(ne.value(&machine), Ok(left != right));
    }
}

#[test]
fn assign_forms_replace_the_left_operand() {
    let mut machine = session();
    let yes = ndbool::t(&mut machine);
    let no = ndbool::f(&mut machine);
    let mut a = yes;
    a.bitand_assign(no, &mut machine);
    let mut o = no;
    o.bitor_assign(yes, &mut machine);
    let mut x = yes;
    x.bitxor_assign(yes, &mut machine);
    assert_eq!(machine.num_vars(), 7);
    assert!(solve(&mut machine));
    assert_eq!(a.value(&machine), Ok(false));
    assert_eq!(o.value(&machine), Ok(true));
    assert_eq!(x.value(&machine), Ok(false));
    assert_eq!(yes.value(&machine), Ok(true));
    assert_eq!(no.value(&machine), Ok(false));
}

#[test]
fn every_change_of_the_formula_drops_the_solution() {
    let mut machine = session();
    let a = ndbool::fresh(&mut machine);
    let b = ndbool::fresh(&mut machine);

    assert!(solve(&mut machine));
    ndbool::fresh(&mut machine);
    assert_eq!(a.value(&machine), Err(NdError::NoSolutionAvailable));

    assert!(solve(&mut machine));
    ndbool::t(&mut machine);
    assert_eq!(a.value(&machine), Err(NdError::NoSolutionAvailable));

    assert!(solve(&mut machine));
    ndbool::f(&mut machine);
    assert_eq!(a.value(&machine), Err(NdError::NoSolutionAvailable));

    assert!(solve(&mut machine));
    a.bitand(b, &mut machine);
    assert_eq!(b.value(&machine), Err(NdError::NoSolutionAvailable));

    assert!(solve(&mut machine));
    a.bitor(b, &mut machine);
    assert_eq!(b.value(&machine), Err(NdError::NoSolutionAvailable));

    assert!(solve(&mut machine));
    a.bitxor(b, &mut machine);
    assert_eq!(a.value(&machine), Err(NdError::NoSolutionAvailable));

    assert!(solve(&mut machine));
    a.ndeq(&b, &mut machine);
    assert_eq!(a.value(&machine), Err(NdError::NoSolutionAvailable));

    assert!(solve(&mut machine));
    ndassert(&mut machine, a);
    assert_eq!(a.value(&machine), Err(NdError::NoSolutionAvailable));

    assert!(solve(&mut machine));
    ndassert_eq(&mut machine, a, b);
    assert_eq!(a.value(&machine), Err(NdError::NoSolutionAvailable));

    assert!(solve(&mut machine));
    assert_eq!(a.value(&machine), Ok(true));
    assert_eq!(b.value(&machine), Ok(true));
}

#[test]
fn session_without_assertions_is_satisfiable() {
    let mut machine = session();
    let a = ndbool::fresh(&mut machine);
    let b = ndbool::f(&mut machine);
    let c = ndbool::t(&mut machine);
    let and = a.bitand(b, &mut machine);
    let or = and.not().bitor(c, &mut machine);
    let xor = or.bitxor(a, &mut machine);
    let eq = xor.ndeq(&b.not(), &mut machine);
    eq.ndne(&and, &mut machine);
    assert_eq!(machine.num_vars(), 14);
    assert!(solve(&mut machine));
    assert_eq!(b.value(&machine), Ok(false));
    assert_eq!(c.value(&machine), Ok(true));
    assert_eq!(and.value(&machine), Ok(false));
    assert_eq!(or.value(&machine), Ok(true));
}

#[test]
fn negation_keeps_the_solution() {
    let mut machine = session();
    let a = ndbool::t(&mut machine);
    assert!(solve(&mut machine));
    let n = a.not();
    assert!(machine.has_solution());
    assert_eq!(n.value(&machine), Ok(false));
}

/// Two booleans compared position by position.
struct Pair(ndbool, ndbool);

impl NdEq for Pair {
    fn ndeq(&self, rhs: &Pair, machine: &mut NdMachine) -> ndbool {
        let first = self.0.ndeq(&rhs.0, machine);
        let second = self.1.ndeq(&rhs.1, machine);
        first.bitand(second, machine)
    }
}

#[test]
fn equality_extends_to_other_types() {
    let mut machine = session();
    let unknown = Pair(ndbool::fresh(&mut machine), ndbool::fresh(&mut machine));
    let known = Pair(ndbool::t(&mut machine), ndbool::f(&mut machine));
    let first = unknown.0;
    let second = unknown.1;
    ndassert_eq(&mut machine, unknown, known);
    assert!(solve(&mut machine));
    assert_eq!(first.value(&machine), Ok(true));
    assert_eq!(second.value(&machine), Ok(false));

    let mut machine = session();
    let yes = ndbool::t(&mut machine);
    let no = ndbool::f(&mut machine);
    ndassert_ne(&mut machine, Pair(yes, no), Pair(yes, no));
    assert!(!solve(&mut machine));
}
