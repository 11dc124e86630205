use vstd::prelude::*;
use crate::syntax::{CompModel, Prim2, TerminalModel, ValModel};

verus! {

// ---------------------------------------------------------------------
// Substitution
// ---------------------------------------------------------------------

/// Replaces every occurrence of the variable `x` in the value `e` by `v`.
pub open spec fn subst_val(e: ValModel, x: Seq<char>, v: ValModel) -> ValModel
    decreases e,
{
    match e {
        ValModel::Num(n) => ValModel::Num(n),
        ValModel::Bool(b) => ValModel::Bool(b),
        ValModel::Var(y) => if x == y {
            v
        } else {
            ValModel::Var(y)
        },
        ValModel::Thunk(c) => ValModel::Thunk(Box::new(subst_comp(*c, x, v))),
        ValModel::Sum(d, w) => ValModel::Sum(d, Box::new(subst_val(*w, x, v))),
        ValModel::Prod(a, b) => ValModel::Prod(
            Box::new(subst_val(*a, x, v)),
            Box::new(subst_val(*b, x, v)),
        ),
    }
}

/// Substitution in a computation. A binder named `x` stops it only where the
/// language says so: in the bound value of a `let` binding of that name, in the
/// bound computation of a `to` of that name, in a match branch that binds `x`,
/// in the body of a pair match that binds `x`, and in the body of a `pop` of `x`.
/// The bodies of a `let` and of a `to` are substituted whatever they bind.
pub open spec fn subst_comp(e: CompModel, x: Seq<char>, v: ValModel) -> CompModel
    decreases e,
{
    match e {
        CompModel::Let(bs, body) => CompModel::Let(
            Seq::new(
                bs.len(),
                |i: int|
                    if 0 <= i < bs.len() {
                        if bs[i].0 == x {
                            bs[i]
                        } else {
                            (bs[i].0, subst_val(bs[i].1, x, v))
                        }
                    } else {
                        bs[i]
                    },
            ),
            Box::new(subst_comp(*body, x, v)),
        ),
        CompModel::To(y, e1, body) => if x == y {
            CompModel::To(y, e1, Box::new(subst_comp(*body, x, v)))
        } else {
            CompModel::To(y, Box::new(subst_comp(*e1, x, v)), Box::new(subst_comp(*body, x, v)))
        },
        CompModel::Returner(w) => CompModel::Returner(Box::new(subst_val(*w, x, v))),
        CompModel::Force(w) => CompModel::Force(Box::new(subst_val(*w, x, v))),
        CompModel::PmSum(s, l, b1, r, b2) => CompModel::PmSum(
            Box::new(subst_val(*s, x, v)),
            l,
            if l == x {
                b1
            } else {
                Box::new(subst_comp(*b1, x, v))
            },
            r,
            if r == x {
                b2
            } else {
                Box::new(subst_comp(*b2, x, v))
            },
        ),
        CompModel::PmPair(s, l, r, body) => CompModel::PmPair(
            Box::new(subst_val(*s, x, v)),
            l,
            r,
            if x == l || x == r {
                body
            } else {
                Box::new(subst_comp(*body, x, v))
            },
        ),
        CompModel::CoPm(b1, b2) => CompModel::CoPm(
            Box::new(subst_comp(*b1, x, v)),
            Box::new(subst_comp(*b2, x, v)),
        ),
        CompModel::Proj(d, c) => CompModel::Proj(d, Box::new(subst_comp(*c, x, v))),
        CompModel::Pop(y, t, c) => if y == x {
            CompModel::Pop(y, t, c)
        } else {
            CompModel::Pop(y, t, Box::new(subst_comp(*c, x, v)))
        },
        CompModel::Push(w, c) => CompModel::Push(
            Box::new(subst_val(*w, x, v)),
            Box::new(subst_comp(*c, x, v)),
        ),
        CompModel::Prim2(op, a, b) => CompModel::Prim2(
            op,
            Box::new(subst_val(*a, x, v)),
            Box::new(subst_val(*b, x, v)),
        ),
    }
}

/// Substitutes the bindings of a `let` into `c`, first binding first.
pub open spec fn subst_all(c: CompModel, bs: Seq<(Seq<char>, ValModel)>) -> CompModel
    decreases bs.len(),
{
    if bs.len() == 0 {
        c
    } else {
        subst_all(subst_comp(c, bs[0].0, bs[0].1), bs.drop_first())
    }
}

// ---------------------------------------------------------------------
// Primitive operations
// ---------------------------------------------------------------------

pub enum PrimResult {
    Value(ValModel),
    /// An arithmetic or comparison operator applied to something other than two numbers.
    ArithMismatch,
    /// `and` or `or` applied to something other than two booleans.
    BoolMismatch,
    /// The exact result does not fit in an `i64`.
    Overflow,
}

pub open spec fn fit_num(n: int) -> PrimResult {
    if i64::MIN <= n <= i64::MAX {
        PrimResult::Value(ValModel::Num(n as i64))
    } else {
        PrimResult::Overflow
    }
}

pub open spec fn prim2_apply(op: Prim2, a: ValModel, b: ValModel) -> PrimResult {
    match op {
        Prim2::And | Prim2::Or => match (a, b) {
            (ValModel::Bool(x), ValModel::Bool(y)) => PrimResult::Value(
                ValModel::Bool(
                    if op is And {
                        x && y
                    } else {
                        x || y
                    },
                ),
            ),
            _ => PrimResult::BoolMismatch,
        },
        _ => match (a, b) {
            (ValModel::Num(n1), ValModel::Num(n2)) => match op {
                Prim2::Add => fit_num(n1 + n2),
                Prim2::Sub => fit_num(n1 - n2),
                Prim2::Mul => fit_num(n1 * n2),
                Prim2::Lt => PrimResult::Value(ValModel::Bool(n1 < n2)),
                Prim2::Gt => PrimResult::Value(ValModel::Bool(n1 > n2)),
                Prim2::Le => PrimResult::Value(ValModel::Bool(n1 <= n2)),
                Prim2::Ge => PrimResult::Value(ValModel::Bool(n1 >= n2)),
                Prim2::Eq => PrimResult::Value(ValModel::Bool(n1 == n2)),
                _ => PrimResult::Value(ValModel::Bool(n1 != n2)),
            },
            _ => PrimResult::ArithMismatch,
        },
    }
}

// ---------------------------------------------------------------------
// Error texts
// ---------------------------------------------------------------------

pub open spec fn msg_to() -> Seq<char> {
    "Error: Eval To error"@
}

pub open spec fn msg_force() -> Seq<char> {
    "Error: Eval Force error"@
}

pub open spec fn msg_pm_sum() -> Seq<char> {
    "Error: Eval PmSum error"@
}

pub open spec fn msg_pm_pair() -> Seq<char> {
    "Error: Eval PmPair error"@
}

pub open spec fn msg_proj() -> Seq<char> {
    "Error: Eval Proj error"@
}

pub open spec fn msg_push() -> Seq<char> {
    "Error: Eval Push error"@
}

pub open spec fn msg_arith() -> Seq<char> {
    "Error: Eval arithmetic error"@
}

pub open spec fn msg_bool() -> Seq<char> {
    "Error: Eval Boolean Algebra error"@
}

pub open spec fn msg_stack_return() -> Seq<char> {
    "Error: Stack Error while eval return"@
}

pub open spec fn msg_stack_copm() -> Seq<char> {
    "Error: Stack Error while eval CoPm"@
}

pub open spec fn msg_stack_pop() -> Seq<char> {
    "Error: Stack Error while eval Pop"@
}

pub open spec fn msg_arith_trace() -> Seq<char> {
    "Error: Eval arithmetic error, compute:"@
}

pub open spec fn msg_step_limit() -> Seq<char> {
    "Error: step limit reached"@
}

// ---------------------------------------------------------------------
// Outcomes
// ---------------------------------------------------------------------

pub enum Outcome {
    Done(TerminalModel),
    Fail(Seq<char>),
    /// The stack machine met an ill-typed arithmetic operation; the report
    /// renders the offending computation.
    ArithFailAt(CompModel),
    /// An `i64` operation overflowed: the evaluator panics there.
    Overflow,
    /// The fuel ran out before evaluation stopped.
    OutOfFuel,
}

// ---------------------------------------------------------------------
// Big-step evaluation, with fuel counting nested evaluations
// ---------------------------------------------------------------------

pub open spec fn eval_prim(op: Prim2, a: ValModel, b: ValModel) -> Outcome {
    match prim2_apply(op, a, b) {
        PrimResult::Value(r) => Outcome::Done(TerminalModel::Return(r)),
        PrimResult::ArithMismatch => Outcome::Fail(msg_arith()),
        PrimResult::BoolMismatch => Outcome::Fail(msg_bool()),
        PrimResult::Overflow => Outcome::Overflow,
    }
}

pub open spec fn run(c: CompModel, fuel: nat) -> Outcome
    decreases fuel,
{
    if fuel == 0 {
        Outcome::OutOfFuel
    } else {
        let f = (fuel - 1) as nat;
        match c {
            CompModel::Let(bs, body) => run(subst_all(*body, bs), f),
            CompModel::To(x, e, body) => match run(*e, f) {
                Outcome::Done(TerminalModel::Return(v)) => run(subst_comp(*body, x, v), f),
                Outcome::Done(_) => Outcome::Fail(msg_to()),
                other => other,
            },
            CompModel::Returner(v) => Outcome::Done(TerminalModel::Return(*v)),
            CompModel::Force(v) => match *v {
                ValModel::Thunk(u) => run(*u, f),
                _ => Outcome::Fail(msg_force()),
            },
            CompModel::PmSum(s, x1, b1, x2, b2) => match *s {
                ValModel::Sum(d, w) => if d {
                    run(subst_comp(*b1, x1, *w), f)
                } else {
                    run(subst_comp(*b2, x2, *w), f)
                },
                _ => Outcome::Fail(msg_pm_sum()),
            },
            CompModel::PmPair(s, l, r, body) => match *s {
                ValModel::Prod(a, b) => run(subst_comp(subst_comp(*body, l, *a), r, *b), f),
                _ => Outcome::Fail(msg_pm_pair()),
            },
            CompModel::CoPm(b1, b2) => Outcome::Done(TerminalModel::CoPm(*b1, *b2)),
            CompModel::Proj(d, e) => match *e {
                CompModel::CoPm(b1, b2) => if d {
                    run(*b1, f)
                } else {
                    run(*b2, f)
                },
                _ => Outcome::Fail(msg_proj()),
            },
            CompModel::Pop(x, _, e) => Outcome::Done(TerminalModel::Pop(x, *e)),
            CompModel::Push(v, e) => match run(*e, f) {
                Outcome::Done(TerminalModel::Pop(x, b)) => run(subst_comp(b, x, *v), f),
                Outcome::Done(_) => Outcome::Fail(msg_push()),
                other => other,
            },
            CompModel::Prim2(op, a, b) => eval_prim(op, *a, *b),
        }
    }
}

// ---------------------------------------------------------------------
// The stack machine
// ---------------------------------------------------------------------

pub enum StackModel {
    /// An argument waiting for a `pop`.
    Arg(ValModel, Box<StackModel>),
    /// A projection waiting for a copattern match.
    Prj(bool, Box<StackModel>),
    /// The continuation of a `to`: its variable and body.
    Cont(Seq<char>, CompModel, Box<StackModel>),
    End,
}

pub enum Step {
    Next(CompModel, StackModel),
    Halt(TerminalModel),
    Fail(Seq<char>),
    ArithFail(CompModel),
    Overflow,
}

/// One transition of the machine on a computation and a stack.
pub open spec fn step(c: CompModel, k: StackModel) -> Step {
    match c {
        CompModel::Let(bs, body) => Step::Next(subst_all(*body, bs), k),
        CompModel::To(x, e, body) => Step::Next(*e, StackModel::Cont(x, *body, Box::new(k))),
        CompModel::Returner(v) => match k {
            StackModel::Cont(x, e, s) => Step::Next(subst_comp(e, x, *v), *s),
            StackModel::End => Step::Halt(TerminalModel::Return(*v)),
            _ => Step::Fail(msg_stack_return()),
        },
        CompModel::Force(v) => match *v {
            ValModel::Thunk(u) => Step::Next(*u, k),
            _ => Step::Fail(msg_force()),
        },
        CompModel::PmSum(s, x1, b1, x2, b2) => match *s {
            ValModel::Sum(d, w) => if d {
                Step::Next(subst_comp(*b1, x1, *w), k)
            } else {
                Step::Next(subst_comp(*b2, x2, *w), k)
            },
            _ => Step::Fail(msg_pm_sum()),
        },
        CompModel::PmPair(s, l, r, body) => match *s {
            ValModel::Prod(a, b) => Step::Next(subst_comp(subst_comp(*body, l, *a), r, *b), k),
            _ => Step::Fail(msg_pm_pair()),
        },
        CompModel::CoPm(b1, b2) => match k {
            StackModel::Prj(d, s) => if d {
                Step::Next(*b1, *s)
            } else {
                Step::Next(*b2, *s)
            },
            StackModel::End => Step::Halt(TerminalModel::CoPm(*b1, *b2)),
            _ => Step::Fail(msg_stack_copm()),
        },
        CompModel::Proj(d, e) => Step::Next(*e, StackModel::Prj(d, Box::new(k))),
        CompModel::Pop(x, t, e) => match k {
            StackModel::Arg(v, s) => Step::Next(subst_comp(*e, x, v), *s),
            StackModel::End => Step::Halt(TerminalModel::Pop(x, *e)),
            _ => Step::Fail(msg_stack_pop()),
        },
        CompModel::Push(v, e) => Step::Next(*e, StackModel::Arg(*v, Box::new(k))),
        CompModel::Prim2(op, a, b) => match prim2_apply(op, *a, *b) {
            PrimResult::Value(r) => Step::Next(CompModel::Returner(Box::new(r)), k),
            PrimResult::ArithMismatch => Step::ArithFail(CompModel::Prim2(op, a, b)),
            PrimResult::BoolMismatch => Step::Fail(msg_bool()),
            PrimResult::Overflow => Step::Overflow,
        },
    }
}

/// Runs the machine for at most `fuel` transitions.
pub open spec fn run_machine(c: CompModel, k: StackModel, fuel: nat) -> Outcome
    decreases fuel,
{
    if fuel == 0 {
        Outcome::OutOfFuel
    } else {
        match step(c, k) {
            Step::Next(c2, k2) => run_machine(c2, k2, (fuel - 1) as nat),
            Step::Halt(t) => Outcome::Done(t),
            Step::Fail(m) => Outcome::Fail(m),
            Step::ArithFail(at) => Outcome::ArithFailAt(at),
            Step::Overflow => Outcome::Overflow,
        }
    }
}

} // verus!
