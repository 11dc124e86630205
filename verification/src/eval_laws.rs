use vstd::prelude::*;
use crate::syntax::{CompModel, Prim2, TVal, TerminalModel, ValModel};
use crate::semantics::{
    msg_arith, msg_arith_trace, msg_bool, msg_force, msg_push, msg_stack_copm, msg_stack_pop,
    msg_stack_return, msg_step_limit, msg_to, msg_pm_pair, msg_pm_sum, msg_proj, prim2_apply, run,
    run_machine, step, subst_comp, Outcome, PrimResult, StackModel, Step,
};
use crate::laws::{evaluates, machine_gives};

verus! {

// ---------------------------------------------------------------------
// Primitive operations on their operands
// ---------------------------------------------------------------------

/// On two numbers, each comparison gives the truth of that comparison, and
/// `+`, `-` and `*` give the exact result where it fits in an `i64` and
/// overflow where it does not; `and` and `or` refuse numbers.
pub proof fn lemma_prim2_on_numbers(n1: i64, n2: i64)
    ensures
        ({
            let a = ValModel::Num(n1);
            let b = ValModel::Num(n2);
            &&& prim2_apply(Prim2::Lt, a, b) == PrimResult::Value(ValModel::Bool(n1 < n2))
            &&& prim2_apply(Prim2::Gt, a, b) == PrimResult::Value(ValModel::Bool(n1 > n2))
            &&& prim2_apply(Prim2::Le, a, b) == PrimResult::Value(ValModel::Bool(n1 <= n2))
            &&& prim2_apply(Prim2::Ge, a, b) == PrimResult::Value(ValModel::Bool(n1 >= n2))
            &&& prim2_apply(Prim2::Eq, a, b) == PrimResult::Value(ValModel::Bool(n1 == n2))
            &&& prim2_apply(Prim2::Neq, a, b) == PrimResult::Value(ValModel::Bool(n1 != n2))
            &&& i64::MIN <= n1 + n2 <= i64::MAX ==> prim2_apply(Prim2::Add, a, b) == PrimResult::Value(
                ValModel::Num((n1 + n2) as i64),
            )
            &&& !(i64::MIN <= n1 + n2 <= i64::MAX) ==> prim2_apply(Prim2::Add, a, b) is Overflow
            &&& i64::MIN <= n1 - n2 <= i64::MAX ==> prim2_apply(Prim2::Sub, a, b) == PrimResult::Value(
                ValModel::Num((n1 - n2) as i64),
            )
            &&& !(i64::MIN <= n1 - n2 <= i64::MAX) ==> prim2_apply(Prim2::Sub, a, b) is Overflow
            &&& i64::MIN <= n1 * n2 <= i64::MAX ==> prim2_apply(Prim2::Mul, a, b) == PrimResult::Value(
                ValModel::Num((n1 * n2) as i64),
            )
            &&& !(i64::MIN <= n1 * n2 <= i64::MAX) ==> prim2_apply(Prim2::Mul, a, b) is Overflow
            &&& prim2_apply(Prim2::And, a, b) is BoolMismatch
            &&& prim2_apply(Prim2::Or, a, b) is BoolMismatch
        }),
{
}

/// On two booleans, `and` and `or` give the conjunction and the disjunction;
/// every other operator refuses booleans.
pub proof fn lemma_prim2_on_booleans(b1: bool, b2: bool, op: Prim2)
    ensures
        ({
            let a = ValModel::Bool(b1);
            let b = ValModel::Bool(b2);
            &&& prim2_apply(Prim2::And, a, b) == PrimResult::Value(ValModel::Bool(b1 && b2))
            &&& prim2_apply(Prim2::Or, a, b) == PrimResult::Value(ValModel::Bool(b1 || b2))
            &&& !(op is And || op is Or) ==> prim2_apply(op, a, b) is ArithMismatch
        }),
{
}

/// An arithmetic or comparison operator on an operand that is not a number, and
/// `and` or `or` on an operand that is not a boolean, are refused.
pub proof fn lemma_prim2_refuses(op: Prim2, a: ValModel, b: ValModel)
    ensures
        !(op is And || op is Or) && !(a is Num && b is Num) ==> prim2_apply(op, a, b) is ArithMismatch,
        (op is And || op is Or) && !(a is Bool && b is Bool) ==> prim2_apply(op, a, b) is BoolMismatch,
{
}

// ---------------------------------------------------------------------
// Both evaluators, one construct at a time
// ---------------------------------------------------------------------

/// Where every run of `c1` is the run of `c2` with one unit of fuel less, the
/// two give the same outcomes.
proof fn lemma_evaluates_same(c1: CompModel, c2: CompModel)
    requires
        forall|f: nat| #[trigger] run(c1, f + 1) == run(c2, f),
    ensures
        forall|p: Outcome| #[trigger] evaluates(c1, p) <==> evaluates(c2, p),
{
    assert forall|p: Outcome| #[trigger] evaluates(c1, p) <==> evaluates(c2, p) by {
        if evaluates(c2, p) {
            let f = choose|f: nat| run(c2, f) == p;
            assert(run(c1, f + 1) == p);
        }
        if evaluates(c1, p) {
            let f = choose|f: nat| run(c1, f) == p;
            let g = (f - 1) as nat;
            assert(run(c1, g + 1) == p);
        }
    }
}

/// Where the machine's first step from `c1` on an empty stack reaches `c2` on an
/// empty stack, the two give the same outcomes.
proof fn lemma_machine_same(c1: CompModel, c2: CompModel)
    requires
        step(c1, StackModel::End) == Step::Next(c2, StackModel::End),
    ensures
        forall|p: Outcome| #[trigger] machine_gives(c1, p) <==> machine_gives(c2, p),
{
    assert forall|p: Outcome| #[trigger] machine_gives(c1, p) <==> machine_gives(c2, p) by {
        if machine_gives(c2, p) {
            let n = choose|n: nat| run_machine(c2, StackModel::End, n) == p;
            assert(run_machine(c1, StackModel::End, n + 1) == p);
        }
        if machine_gives(c1, p) {
            let n = choose|n: nat| run_machine(c1, StackModel::End, n) == p;
            assert(run_machine(c2, StackModel::End, (n - 1) as nat) == p);
        }
    }
}

/// Where both evaluators stop at once on `c` with `o`, both give `o`.
proof fn lemma_both_give(c: CompModel, o: Outcome)
    requires
        !(o is OutOfFuel),
        run(c, 1) == o,
        run_machine(c, StackModel::End, 1) == o,
    ensures
        evaluates(c, o),
        machine_gives(c, o),
{
}

/// A returned value, a copattern match and a `pop` are terminal forms for
/// both evaluators.
pub proof fn lemma_terminal_forms(v: ValModel, b1: CompModel, b2: CompModel, x: Seq<char>, t: TVal, e: CompModel)
    ensures
        evaluates(CompModel::Returner(Box::new(v)), Outcome::Done(TerminalModel::Return(v))),
        machine_gives(CompModel::Returner(Box::new(v)), Outcome::Done(TerminalModel::Return(v))),
        evaluates(CompModel::CoPm(Box::new(b1), Box::new(b2)), Outcome::Done(TerminalModel::CoPm(b1, b2))),
        machine_gives(CompModel::CoPm(Box::new(b1), Box::new(b2)), Outcome::Done(TerminalModel::CoPm(b1, b2))),
        evaluates(CompModel::Pop(x, t, Box::new(e)), Outcome::Done(TerminalModel::Pop(x, e))),
        machine_gives(CompModel::Pop(x, t, Box::new(e)), Outcome::Done(TerminalModel::Pop(x, e))),
{
    lemma_both_give(CompModel::Returner(Box::new(v)), Outcome::Done(TerminalModel::Return(v)));
    lemma_both_give(CompModel::CoPm(Box::new(b1), Box::new(b2)), Outcome::Done(TerminalModel::CoPm(b1, b2)));
    lemma_both_give(CompModel::Pop(x, t, Box::new(e)), Outcome::Done(TerminalModel::Pop(x, e)));
}

/// Forcing a thunk runs its computation; forcing anything else fails.
pub proof fn lemma_evaluates_force(u: CompModel, v: ValModel)
    ensures
        ({
            let c = CompModel::Force(Box::new(ValModel::Thunk(Box::new(u))));
            &&& forall|p: Outcome| #[trigger] evaluates(c, p) <==> evaluates(u, p)
            &&& forall|p: Outcome| #[trigger] machine_gives(c, p) <==> machine_gives(u, p)
        }),
        !(v is Thunk) ==> evaluates(CompModel::Force(Box::new(v)), Outcome::Fail(msg_force())),
        !(v is Thunk) ==> machine_gives(CompModel::Force(Box::new(v)), Outcome::Fail(msg_force())),
{
    let c = CompModel::Force(Box::new(ValModel::Thunk(Box::new(u))));
    assert forall|f: nat| #[trigger] run(c, f + 1) == run(u, f) by {}
    lemma_evaluates_same(c, u);
    lemma_machine_same(c, u);
    if !(v is Thunk) {
        lemma_both_give(CompModel::Force(Box::new(v)), Outcome::Fail(msg_force()));
    }
}

/// Matching a left injection `in1 w` runs the first branch with `w` for its
/// variable, and a right injection `in2 w` the second branch; matching
/// anything else fails.
pub proof fn lemma_evaluates_pm_sum(
    w: ValModel,
    x1: Seq<char>,
    b1: CompModel,
    x2: Seq<char>,
    b2: CompModel,
    s: ValModel,
)
    ensures
        ({
            let left = CompModel::PmSum(
                Box::new(ValModel::Sum(true, Box::new(w))),
                x1,
                Box::new(b1),
                x2,
                Box::new(b2),
            );
            let right = CompModel::PmSum(
                Box::new(ValModel::Sum(false, Box::new(w))),
                x1,
                Box::new(b1),
                x2,
                Box::new(b2),
            );
            &&& forall|p: Outcome| #[trigger] evaluates(left, p) <==> evaluates(subst_comp(b1, x1, w), p)
            &&& forall|p: Outcome| #[trigger] machine_gives(left, p) <==> machine_gives(subst_comp(b1, x1, w), p)
            &&& forall|p: Outcome| #[trigger] evaluates(right, p) <==> evaluates(subst_comp(b2, x2, w), p)
            &&& forall|p: Outcome| #[trigger] machine_gives(right, p) <==> machine_gives(subst_comp(b2, x2, w), p)
        }),
        !(s is Sum) ==> evaluates(
            CompModel::PmSum(Box::new(s), x1, Box::new(b1), x2, Box::new(b2)),
            Outcome::Fail(msg_pm_sum()),
        ),
        !(s is Sum) ==> machine_gives(
            CompModel::PmSum(Box::new(s), x1, Box::new(b1), x2, Box::new(b2)),
            Outcome::Fail(msg_pm_sum()),
        ),
{
    let left = CompModel::PmSum(Box::new(ValModel::Sum(true, Box::new(w))), x1, Box::new(b1), x2, Box::new(b2));
    let right = CompModel::PmSum(Box::new(ValModel::Sum(false, Box::new(w))), x1, Box::new(b1), x2, Box::new(b2));
    assert forall|f: nat| #[trigger] run(left, f + 1) == run(subst_comp(b1, x1, w), f) by {}
    assert forall|f: nat| #[trigger] run(right, f + 1) == run(subst_comp(b2, x2, w), f) by {}
    lemma_evaluates_same(left, subst_comp(b1, x1, w));
    lemma_evaluates_same(right, subst_comp(b2, x2, w));
    lemma_machine_same(left, subst_comp(b1, x1, w));
    lemma_machine_same(right, subst_comp(b2, x2, w));
    if !(s is Sum) {
        lemma_both_give(
            CompModel::PmSum(Box::new(s), x1, Box::new(b1), x2, Box::new(b2)),
            Outcome::Fail(msg_pm_sum()),
        );
    }
}

/// Matching a pair `(a, b)` runs the body with `a` for the left variable, then
/// `b` for the right one; matching anything else fails.
pub proof fn lemma_evaluates_pm_pair(
    a: ValModel,
    b: ValModel,
    l: Seq<char>,
    r: Seq<char>,
    body: CompModel,
    s: ValModel,
)
    ensures
        ({
            let c = CompModel::PmPair(
                Box::new(ValModel::Prod(Box::new(a), Box::new(b))),
                l,
                r,
                Box::new(body),
            );
            let next = subst_comp(subst_comp(body, l, a), r, b);
            &&& forall|p: Outcome| #[trigger] evaluates(c, p) <==> evaluates(next, p)
            &&& forall|p: Outcome| #[trigger] machine_gives(c, p) <==> machine_gives(next, p)
        }),
        !(s is Prod) ==> evaluates(CompModel::PmPair(Box::new(s), l, r, Box::new(body)), Outcome::Fail(msg_pm_pair())),
        !(s is Prod) ==> machine_gives(CompModel::PmPair(Box::new(s), l, r, Box::new(body)), Outcome::Fail(msg_pm_pair())),
{
    let c = CompModel::PmPair(Box::new(ValModel::Prod(Box::new(a), Box::new(b))), l, r, Box::new(body));
    let next = subst_comp(subst_comp(body, l, a), r, b);
    assert forall|f: nat| #[trigger] run(c, f + 1) == run(next, f) by {}
    lemma_evaluates_same(c, next);
    lemma_machine_same(c, next);
    if !(s is Prod) {
        lemma_both_give(CompModel::PmPair(Box::new(s), l, r, Box::new(body)), Outcome::Fail(msg_pm_pair()));
    }
}

/// Projecting out of a copattern match runs the first branch for `true` and
/// the second for `false`; the big-step evaluator refuses to project out of
/// anything else.
pub proof fn lemma_evaluates_proj(b1: CompModel, b2: CompModel, e: CompModel)
    ensures
        ({
            let copm = CompModel::CoPm(Box::new(b1), Box::new(b2));
            let first = CompModel::Proj(true, Box::new(copm));
            let second = CompModel::Proj(false, Box::new(copm));
            &&& forall|p: Outcome| #[trigger] evaluates(first, p) <==> evaluates(b1, p)
            &&& forall|p: Outcome| #[trigger] evaluates(second, p) <==> evaluates(b2, p)
        }),
        !(e is CoPm) ==> evaluates(CompModel::Proj(true, Box::new(e)), Outcome::Fail(msg_proj())),
        !(e is CoPm) ==> evaluates(CompModel::Proj(false, Box::new(e)), Outcome::Fail(msg_proj())),
{
    let copm = CompModel::CoPm(Box::new(b1), Box::new(b2));
    let first = CompModel::Proj(true, Box::new(copm));
    let second = CompModel::Proj(false, Box::new(copm));
    assert forall|f: nat| #[trigger] run(first, f + 1) == run(b1, f) by {}
    assert forall|f: nat| #[trigger] run(second, f + 1) == run(b2, f) by {}
    lemma_evaluates_same(first, b1);
    lemma_evaluates_same(second, b2);
    if !(e is CoPm) {
        assert(run(CompModel::Proj(true, Box::new(e)), 1) == Outcome::Fail(msg_proj()));
        assert(run(CompModel::Proj(false, Box::new(e)), 1) == Outcome::Fail(msg_proj()));
    }
}

/// A `let` with no bindings is its body; a `let` substitutes its first binding
/// into the body before the others.
pub proof fn lemma_evaluates_let(bs: Seq<(Seq<char>, ValModel)>, body: CompModel)
    ensures
        ({
            let empty = CompModel::Let(Seq::empty(), Box::new(body));
            &&& forall|p: Outcome| #[trigger] evaluates(empty, p) <==> evaluates(body, p)
            &&& forall|p: Outcome| #[trigger] machine_gives(empty, p) <==> machine_gives(body, p)
        }),
        bs.len() > 0 ==> {
            let c = CompModel::Let(bs, Box::new(body));
            let rest = CompModel::Let(bs.drop_first(), Box::new(subst_comp(body, bs[0].0, bs[0].1)));
            &&& forall|p: Outcome| #[trigger] evaluates(c, p) <==> evaluates(rest, p)
            &&& forall|p: Outcome| #[trigger] machine_gives(c, p) <==> machine_gives(rest, p)
        },
{
    let empty = CompModel::Let(Seq::empty(), Box::new(body));
    assert forall|f: nat| #[trigger] run(empty, f + 1) == run(body, f) by {}
    lemma_evaluates_same(empty, body);
    lemma_machine_same(empty, body);
    if bs.len() > 0 {
        let c = CompModel::Let(bs, Box::new(body));
        let rest = CompModel::Let(bs.drop_first(), Box::new(subst_comp(body, bs[0].0, bs[0].1)));
        assert forall|p: Outcome| #[trigger] evaluates(c, p) <==> evaluates(rest, p) by {
            if evaluates(c, p) {
                let f = choose|f: nat| run(c, f) == p;
                assert(run(rest, f) == p);
            }
            if evaluates(rest, p) {
                let f = choose|f: nat| run(rest, f) == p;
                assert(run(c, f) == p);
            }
        }
        assert forall|p: Outcome| #[trigger] machine_gives(c, p) <==> machine_gives(rest, p) by {
            if machine_gives(c, p) {
                let n = choose|n: nat| run_machine(c, StackModel::End, n) == p;
                assert(run_machine(rest, StackModel::End, n) == p);
            }
            if machine_gives(rest, p) {
                let n = choose|n: nat| run_machine(rest, StackModel::End, n) == p;
                assert(run_machine(c, StackModel::End, n) == p);
            }
        }
    }
}

/// A comparison of two numbers evaluates, by both evaluators, to the truth of
/// that comparison; `+`, `-` and `*` to the exact result where it fits;
/// `and` and `or` of two booleans to their conjunction and disjunction.
pub proof fn lemma_evaluates_prim2(op: Prim2, n1: i64, n2: i64, b1: bool, b2: bool)
    ensures
        ({
            let nums = CompModel::Prim2(op, Box::new(ValModel::Num(n1)), Box::new(ValModel::Num(n2)));
            let truth = match op {
                Prim2::Lt => n1 < n2,
                Prim2::Gt => n1 > n2,
                Prim2::Le => n1 <= n2,
                Prim2::Ge => n1 >= n2,
                Prim2::Eq => n1 == n2,
                _ => n1 != n2,
            };
            let exact: int = match op {
                Prim2::Add => n1 + n2,
                Prim2::Sub => n1 - n2,
                _ => n1 * n2,
            };
            &&& (op is Lt || op is Gt || op is Le || op is Ge || op is Eq || op is Neq) ==> {
                &&& evaluates(nums, Outcome::Done(TerminalModel::Return(ValModel::Bool(truth))))
                &&& machine_gives(nums, Outcome::Done(TerminalModel::Return(ValModel::Bool(truth))))
            }
            &&& (op is Add || op is Sub || op is Mul) && i64::MIN <= exact <= i64::MAX ==> {
                &&& evaluates(nums, Outcome::Done(TerminalModel::Return(ValModel::Num(exact as i64))))
                &&& machine_gives(nums, Outcome::Done(TerminalModel::Return(ValModel::Num(exact as i64))))
            }
        }),
        ({
            let bools = CompModel::Prim2(op, Box::new(ValModel::Bool(b1)), Box::new(ValModel::Bool(b2)));
            &&& op is And ==> evaluates(bools, Outcome::Done(TerminalModel::Return(ValModel::Bool(b1 && b2))))
                && machine_gives(bools, Outcome::Done(TerminalModel::Return(ValModel::Bool(b1 && b2))))
            &&& op is Or ==> evaluates(bools, Outcome::Done(TerminalModel::Return(ValModel::Bool(b1 || b2))))
                && machine_gives(bools, Outcome::Done(TerminalModel::Return(ValModel::Bool(b1 || b2))))
            &&& !(op is And || op is Or) ==> evaluates(bools, Outcome::Fail(msg_arith()))
        }),
{
    let nums = CompModel::Prim2(op, Box::new(ValModel::Num(n1)), Box::new(ValModel::Num(n2)));
    let bools = CompModel::Prim2(op, Box::new(ValModel::Bool(b1)), Box::new(ValModel::Bool(b2)));
    lemma_prim2_on_numbers(n1, n2);
    lemma_prim2_on_booleans(b1, b2, op);
    if let PrimResult::Value(r) = prim2_apply(op, ValModel::Num(n1), ValModel::Num(n2)) {
        assert(run_machine(CompModel::Returner(Box::new(r)), StackModel::End, 1)
            == Outcome::Done(TerminalModel::Return(r)));
        assert(run_machine(nums, StackModel::End, 2) == Outcome::Done(TerminalModel::Return(r)));
        assert(run(nums, 1) == Outcome::Done(TerminalModel::Return(r)));
    }
    if let PrimResult::Value(r) = prim2_apply(op, ValModel::Bool(b1), ValModel::Bool(b2)) {
        assert(run_machine(CompModel::Returner(Box::new(r)), StackModel::End, 1)
            == Outcome::Done(TerminalModel::Return(r)));
        assert(run_machine(bools, StackModel::End, 2) == Outcome::Done(TerminalModel::Return(r)));
        assert(run(bools, 1) == Outcome::Done(TerminalModel::Return(r)));
    } else {
        assert(run(bools, 1) == Outcome::Fail(msg_arith()));
    }
}

/// The texts of the evaluators' errors.
pub proof fn lemma_error_texts()
    ensures
        msg_to() == "Error: Eval To error"@,
        msg_force() == "Error: Eval Force error"@,
        msg_pm_sum() == "Error: Eval PmSum error"@,
        msg_pm_pair() == "Error: Eval PmPair error"@,
        msg_proj() == "Error: Eval Proj error"@,
        msg_push() == "Error: Eval Push error"@,
        msg_arith() == "Error: Eval arithmetic error"@,
        msg_bool() == "Error: Eval Boolean Algebra error"@,
        msg_stack_return() == "Error: Stack Error while eval return"@,
        msg_stack_copm() == "Error: Stack Error while eval CoPm"@,
        msg_stack_pop() == "Error: Stack Error while eval Pop"@,
        msg_arith_trace() == "Error: Eval arithmetic error, compute:"@,
        msg_step_limit() == "Error: step limit reached"@,
{
}

/// An ill-typed primitive operation fails at once in both evaluators: an
/// arithmetic or comparison operator on something other than two numbers with
/// the arithmetic error (the stack machine reports the operation itself), and
/// `and` or `or` on something other than two booleans with the boolean error.
pub proof fn lemma_evaluates_prim2_refused(op: Prim2, a: ValModel, b: ValModel)
    ensures
        ({
            let c = CompModel::Prim2(op, Box::new(a), Box::new(b));
            &&& !(op is And || op is Or) && !(a is Num && b is Num) ==> {
                &&& evaluates(c, Outcome::Fail(msg_arith()))
                &&& machine_gives(c, Outcome::ArithFailAt(c))
            }
            &&& (op is And || op is Or) && !(a is Bool && b is Bool) ==> {
                &&& evaluates(c, Outcome::Fail(msg_bool()))
                &&& machine_gives(c, Outcome::Fail(msg_bool()))
            }
        }),
{
    let c = CompModel::Prim2(op, Box::new(a), Box::new(b));
    lemma_prim2_refuses(op, a, b);
    assert(run(c, 1) == crate::semantics::eval_prim(op, a, b));
    assert(run_machine(c, StackModel::End, 1) == match step(c, StackModel::End) {
        Step::Next(c2, k2) => run_machine(c2, k2, 0),
        Step::Halt(t) => Outcome::Done(t),
        Step::Fail(m) => Outcome::Fail(m),
        Step::ArithFail(at) => Outcome::ArithFailAt(at),
        Step::Overflow => Outcome::Overflow,
    });
}

} // verus!
