use vstd::prelude::*;
use crate::syntax::{
    binds_view, comp_size, lemma_binding_smaller, lemma_let_view, CompModel, ExpCompute, ExpVal,
    Prim2, Terminal, ValModel, val_size,
};
use crate::semantics::{
    msg_arith_trace, msg_step_limit, prim2_apply, run, run_machine, step, subst_all, subst_comp,
    subst_val, Outcome, PrimResult, StackModel, Step,
};
use crate::text::{debug_rendering, debug_text, error_text, str_eq};

verus! {

// ---------------------------------------------------------------------
// Substitution
// ---------------------------------------------------------------------

/// Substitutes `v` for the variable `x` in the value `e`.
pub fn substVal(e: ExpVal<()>, x: &str, v: ExpVal<()>) -> (r: ExpVal<()>)
    ensures
        r@ == subst_val(e@, x@, v@),
    decreases val_size(e@),
{
    match e {
        ExpVal::Num(n, _) => ExpVal::Num(n, ()),
        ExpVal::Bool(b, _) => ExpVal::Bool(b, ()),
        ExpVal::Var(y, _) => {
            if str_eq(x, y.as_str()) {
                v
            } else {
                ExpVal::Var(y, ())
            }
        },
        ExpVal::Thunk(u, _) => ExpVal::Thunk(Box::new(substCompute(*u, x, v)), ()),
        ExpVal::Sum(d, w, _) => ExpVal::Sum(d, Box::new(substVal(*w, x, v)), ()),
        ExpVal::Prod(a, b, _) => {
            let na = substVal(*a, x, v.clone());
            let nb = substVal(*b, x, v);
            ExpVal::Prod(Box::new(na), Box::new(nb), ())
        },
    }
}

/// Substitutes `v` for the variable `x` in the computation `e`
/// (see `subst_comp` for where binders stop it).
#[verifier::loop_isolation(false)]
pub fn substCompute(e: ExpCompute<()>, x: &str, v: ExpVal<()>) -> (r: ExpCompute<()>)
    ensures
        r@ == subst_comp(e@, x@, v@),
    decreases comp_size(e@),
{
    match e {
        ExpCompute::Let { bindings, body, ann } => {
            proof {
                lemma_let_view(bindings, body, ann);
            }
            let ghost vs = binds_view(bindings@);
            let mut new_bindings: Vec<(String, ExpVal<()>)> = Vec::new();
            let mut i: usize = 0;
            while i < bindings.len()
                invariant
                    i <= bindings@.len(),
                    new_bindings@.len() == i,
                    forall|j: int|
                        0 <= j < i ==> #[trigger] new_bindings@[j].0@ == vs[j].0
                            && new_bindings@[j].1@ == (if vs[j].0 == x@ {
                                vs[j].1
                            } else {
                                subst_val(vs[j].1, x@, v@)
                            }),
                decreases bindings@.len() - i,
            {
                proof {
                    lemma_binding_smaller(vs, i as int);
                }
                let y = bindings[i].0.clone();
                let w = bindings[i].1.clone();
                if str_eq(x, y.as_str()) {
                    new_bindings.push((y, w));
                } else {
                    let nw = substVal(w, x, v.clone());
                    new_bindings.push((y, nw));
                }
                i = i + 1;
            }
            let nbody = substCompute(*body, x, v);
            let r = ExpCompute::Let { bindings: new_bindings, body: Box::new(nbody), ann: () };
            proof {
                lemma_let_view(new_bindings, Box::new(nbody), ());
                let expected = match subst_comp(e@, x@, v@) {
                    CompModel::Let(s, _) => s,
                    _ => Seq::empty(),
                };
                assert(binds_view(new_bindings@) =~= expected);
            }
            r
        },
        ExpCompute::To { binding, body, ann } => {
            let (y, e1) = binding;
            if str_eq(x, y.as_str()) {
                let nbody = substCompute(*body, x, v);
                ExpCompute::To { binding: (y, e1), body: Box::new(nbody), ann: () }
            } else {
                let ne1 = substCompute(*e1, x, v.clone());
                let nbody = substCompute(*body, x, v);
                ExpCompute::To { binding: (y, Box::new(ne1)), body: Box::new(nbody), ann: () }
            }
        },
        ExpCompute::Returner(w, _) => ExpCompute::Returner(Box::new(substVal(*w, x, v)), ()),
        ExpCompute::Force(w, _) => ExpCompute::Force(Box::new(substVal(*w, x, v)), ()),
        ExpCompute::PmSum { subject, branch1, branch2, ann } => {
            let (l, b1) = branch1;
            let (r, b2) = branch2;
            let nb1 = if str_eq(x, l.as_str()) {
                b1
            } else {
                Box::new(substCompute(*b1, x, v.clone()))
            };
            let nb2 = if str_eq(x, r.as_str()) {
                b2
            } else {
                Box::new(substCompute(*b2, x, v.clone()))
            };
            let ns = substVal(*subject, x, v);
            ExpCompute::PmSum { subject: Box::new(ns), branch1: (l, nb1), branch2: (r, nb2), ann: () }
        },
        ExpCompute::PmPair { subject, left, right, body, ann } => {
            let nbody = if str_eq(x, left.as_str()) || str_eq(x, right.as_str()) {
                body
            } else {
                Box::new(substCompute(*body, x, v.clone()))
            };
            let ns = substVal(*subject, x, v);
            ExpCompute::PmPair { subject: Box::new(ns), left, right, body: nbody, ann: () }
        },
        ExpCompute::CoPm { branch1, branch2, ann } => {
            let n1 = substCompute(*branch1, x, v.clone());
            let n2 = substCompute(*branch2, x, v);
            ExpCompute::CoPm { branch1: Box::new(n1), branch2: Box::new(n2), ann: () }
        },
        ExpCompute::Proj(d, c, _) => ExpCompute::Proj(d, Box::new(substCompute(*c, x, v)), ()),
        ExpCompute::Pop(y, t, c, _) => {
            if str_eq(x, y.as_str()) {
                ExpCompute::Pop(y, t, c, ())
            } else {
                ExpCompute::Pop(y, t, Box::new(substCompute(*c, x, v)), ())
            }
        },
        ExpCompute::Push(w, c, _) => {
            let nw = substVal(*w, x, v.clone());
            let nc = substCompute(*c, x, v);
            ExpCompute::Push(Box::new(nw), Box::new(nc), ())
        },
        ExpCompute::Prim2(op, a, b, _) => {
            let na = substVal(*a, x, v.clone());
            let nb = substVal(*b, x, v);
            ExpCompute::Prim2(op, Box::new(na), Box::new(nb), ())
        },
    }
}

/// Substitutes the bindings of a `let` into `body`, first binding first.
fn subst_bindings(body: ExpCompute<()>, bindings: &Vec<(String, ExpVal<()>)>) -> (r: ExpCompute<()>)
    ensures
        r@ == subst_all(body@, binds_view(bindings@)),
{
    let ghost vs = binds_view(bindings@);
    let mut c = body;
    let mut i: usize = 0;
    assert(vs.skip(0) =~= vs);
    while i < bindings.len()
        invariant
            i <= bindings@.len(),
            vs == binds_view(bindings@),
            subst_all(body@, vs) == subst_all(c@, vs.skip(i as int)),
        decreases bindings@.len() - i,
    {
        proof {
            assert(vs.skip(i as int).drop_first() =~= vs.skip(i + 1));
            assert(vs.skip(i as int)[0] == vs[i as int]);
        }
        c = substCompute(c, bindings[i].0.as_str(), bindings[i].1.clone());
        i = i + 1;
    }
    proof {
        assert(vs.skip(i as int).len() == 0);
    }
    c
}

// ---------------------------------------------------------------------
// Primitive operations
// ---------------------------------------------------------------------

enum Applied {
    Value(ExpVal<()>),
    ArithMismatch,
    BoolMismatch,
}

fn apply_prim2(op: Prim2, a: &ExpVal<()>, b: &ExpVal<()>) -> (r: Applied)
    requires
        !(prim2_apply(op, a@, b@) is Overflow),
    ensures
        match prim2_apply(op, a@, b@) {
            PrimResult::Value(v) => r matches Applied::Value(w) && w@ == v,
            PrimResult::ArithMismatch => r is ArithMismatch,
            PrimResult::BoolMismatch => r is BoolMismatch,
            PrimResult::Overflow => false,
        },
{
    match op {
        Prim2::And | Prim2::Or => match a {
            ExpVal::Bool(x, _) => match b {
                ExpVal::Bool(y, _) => {
                    let z = match op {
                        Prim2::And => *x && *y,
                        _ => *x || *y,
                    };
                    Applied::Value(ExpVal::Bool(z, ()))
                },
                _ => Applied::BoolMismatch,
            },
            _ => Applied::BoolMismatch,
        },
        _ => match a {
            ExpVal::Num(n1, _) => match b {
                ExpVal::Num(n2, _) => {
                    let n1 = *n1;
                    let n2 = *n2;
                    let r = match op {
                        Prim2::Add => ExpVal::Num(n1 + n2, ()),
                        Prim2::Sub => ExpVal::Num(n1 - n2, ()),
                        Prim2::Mul => ExpVal::Num(n1 * n2, ()),
                        Prim2::Lt => ExpVal::Bool(n1 < n2, ()),
                        Prim2::Gt => ExpVal::Bool(n1 > n2, ()),
                        Prim2::Le => ExpVal::Bool(n1 <= n2, ()),
                        Prim2::Ge => ExpVal::Bool(n1 >= n2, ()),
                        Prim2::Eq => ExpVal::Bool(n1 == n2, ()),
                        _ => ExpVal::Bool(n1 != n2, ()),
                    };
                    Applied::Value(r)
                },
                _ => Applied::ArithMismatch,
            },
            _ => Applied::ArithMismatch,
        },
    }
}

// ---------------------------------------------------------------------
// Big-step evaluation
// ---------------------------------------------------------------------

/// What an evaluator's result says of an outcome of the semantics.
pub open spec fn reports(r: Result<Terminal, String>, o: Outcome) -> bool {
    match o {
        Outcome::Done(t) => r matches Ok(term) && term@ == t,
        Outcome::Fail(m) => r matches Err(s) && s@ == m,
        Outcome::ArithFailAt(c) => r matches Err(s) && s@ == msg_arith_trace() + debug_rendering(c),
        Outcome::OutOfFuel => r matches Err(s) && s@ == msg_step_limit(),
        Outcome::Overflow => false,
    }
}

/// A result that reports an outcome carries exactly its terminal form or its
/// error text.
pub proof fn lemma_reports_exact(r: Result<Terminal, String>, o: Outcome)
    requires
        reports(r, o),
    ensures
        match o {
            Outcome::Done(t) => r is Ok && r->Ok_0@ == t,
            Outcome::Fail(m) => r is Err && r->Err_0@ == m,
            Outcome::ArithFailAt(c) => r is Err && r->Err_0@ == "Error: Eval arithmetic error, compute:"@
                + debug_rendering(c),
            Outcome::OutOfFuel => r is Err && r->Err_0@ == "Error: step limit reached"@,
            Outcome::Overflow => false,
        },
{
}

/// Evaluates `e` with at most `fuel` nested evaluations.
fn eval_fuel(e: &ExpCompute<()>, fuel: u64) -> (r: Result<Terminal, String>)
    requires
        !(run(e@, fuel as nat) is Overflow),
    ensures
        reports(r, run(e@, fuel as nat)),
    decreases fuel,
{
    if fuel == 0 {
        return error_text("Error: step limit reached");
    }
    let f = fuel - 1;
    match e {
        ExpCompute::Let { bindings, body, ann } => {
            proof {
                lemma_let_view(*bindings, *body, *ann);
            }
            let new_body = subst_bindings((**body).clone(), bindings);
            eval_fuel(&new_body, f)
        },
        ExpCompute::To { binding, body, ann } => {
            match eval_fuel(&binding.1, f) {
                Ok(Terminal::Return(v)) => {
                    let new_body = substCompute((**body).clone(), binding.0.as_str(), *v);
                    eval_fuel(&new_body, f)
                },
                Ok(_) => error_text("Error: Eval To error"),
                Err(s) => Err(s),
            }
        },
        ExpCompute::Returner(v, _) => Ok(Terminal::Return(Box::new((**v).clone()))),
        ExpCompute::Force(v, _) => match &**v {
            ExpVal::Thunk(u, _) => {
                assert(v@ == ValModel::Thunk(Box::new(u@)));
                eval_fuel(u, f)
            },
            _ => error_text("Error: Eval Force error"),
        },
        ExpCompute::PmSum { subject, branch1, branch2, ann } => match &**subject {
            ExpVal::Sum(d, w, _) => {
                assert(subject@ == ValModel::Sum(*d, Box::new(w@)));
                if *d {
                    let new_body = substCompute((*branch1.1).clone(), branch1.0.as_str(), (**w).clone());
                    eval_fuel(&new_body, f)
                } else {
                    let new_body = substCompute((*branch2.1).clone(), branch2.0.as_str(), (**w).clone());
                    eval_fuel(&new_body, f)
                }
            },
            _ => error_text("Error: Eval PmSum error"),
        },
        ExpCompute::PmPair { subject, left, right, body, ann } => match &**subject {
            ExpVal::Prod(a, b, _) => {
                assert(subject@ == ValModel::Prod(Box::new(a@), Box::new(b@)));
                let new_body = substCompute((**body).clone(), left.as_str(), (**a).clone());
                let new_body = substCompute(new_body, right.as_str(), (**b).clone());
                eval_fuel(&new_body, f)
            },
            _ => error_text("Error: Eval PmPair error"),
        },
        ExpCompute::CoPm { branch1, branch2, ann } => Ok(
            Terminal::CoPm {
                branch1: Box::new((**branch1).clone()),
                branch2: Box::new((**branch2).clone()),
            },
        ),
        ExpCompute::Proj(d, c, _) => match &**c {
            ExpCompute::CoPm { branch1, branch2, ann } => {
                assert(c@ == CompModel::CoPm(Box::new(branch1@), Box::new(branch2@)));
                if *d {
                    eval_fuel(branch1, f)
                } else {
                    eval_fuel(branch2, f)
                }
            },
            _ => error_text("Error: Eval Proj error"),
        },
        ExpCompute::Pop(x, t, c, _) => Ok(Terminal::Pop(x.clone(), Box::new((**c).clone()))),
        ExpCompute::Push(v, c, _) => match eval_fuel(c, f) {
            Ok(Terminal::Pop(x, b)) => {
                let new_body = substCompute(*b, x.as_str(), (**v).clone());
                eval_fuel(&new_body, f)
            },
            Ok(_) => error_text("Error: Eval Push error"),
            Err(s) => Err(s),
        },
        ExpCompute::Prim2(op, a, b, _) => match apply_prim2(*op, a, b) {
            Applied::Value(r) => Ok(Terminal::Return(Box::new(r))),
            Applied::ArithMismatch => error_text("Error: Eval arithmetic error"),
            Applied::BoolMismatch => error_text("Error: Eval Boolean Algebra error"),
        },
    }
}

/// Evaluates a computation to the form in which it stops (big-step).
/// Panics, as `i64` arithmetic does, where the evaluation overflows.
pub fn eval(e: &ExpCompute<()>) -> (r: Result<Terminal, String>)
    requires
        !(run(e@, u64::MAX as nat) is Overflow),
    ensures
        reports(r, run(e@, u64::MAX as nat)),
{
    eval_fuel(e, u64::MAX)
}

// ---------------------------------------------------------------------
// The stack machine
// ---------------------------------------------------------------------

/// The frames waiting for the computation under evaluation.
enum Stack {
    Arg(ExpVal<()>, Box<Stack>, ()),
    Prj(bool, Box<Stack>, ()),
    Cont(String, ExpCompute<()>, Box<Stack>, ()),
    End(()),
}

spec fn stack_view(s: Stack) -> StackModel
    decreases s,
{
    match s {
        Stack::Arg(v, rest, _) => StackModel::Arg(v@, Box::new(stack_view(*rest))),
        Stack::Prj(d, rest, _) => StackModel::Prj(d, Box::new(stack_view(*rest))),
        Stack::Cont(x, c, rest, _) => StackModel::Cont(x@, c@, Box::new(stack_view(*rest))),
        Stack::End(_) => StackModel::End,
    }
}

/// Each stack's model keeps its frames and their fields in place.
proof fn lemma_stack_view_fields(s: Stack)
    ensures
        match s {
            Stack::Arg(v, rest, _) => s@ == StackModel::Arg(v@, Box::new(rest@)),
            Stack::Prj(d, rest, _) => s@ == StackModel::Prj(d, Box::new(rest@)),
            Stack::Cont(x, c, rest, _) => s@ == StackModel::Cont(x@, c@, Box::new(rest@)),
            Stack::End(_) => s@ == StackModel::End,
        },
{
}

impl View for Stack {
    type V = StackModel;

    closed spec fn view(&self) -> StackModel {
        stack_view(*self)
    }
}

/// Evaluates a computation with an explicit stack of frames, one transition
/// of `step` at a time. Panics, as `i64` arithmetic does, where the
/// evaluation overflows.
pub fn eval_with_stack(e: &ExpCompute<()>) -> (r: Result<Terminal, String>)
    requires
        !(run_machine(e@, StackModel::End, u64::MAX as nat) is Overflow),
    ensures
        reports(r, run_machine(e@, StackModel::End, u64::MAX as nat)),
{
    let mut compute = e.clone();
    let mut stack = Stack::End(());
    let mut fuel: u64 = u64::MAX;
    loop
        invariant
            run_machine(compute@, stack@, fuel as nat) == run_machine(e@, StackModel::End, u64::MAX as nat),
            !(run_machine(e@, StackModel::End, u64::MAX as nat) is Overflow),
        decreases fuel,
    {
        if fuel == 0 {
            return error_text("Error: step limit reached");
        }
        let ghost c0 = compute@;
        let ghost k0 = stack@;
        assert(run_machine(c0, k0, fuel as nat) == match step(c0, k0) {
            Step::Next(c2, k2) => run_machine(c2, k2, (fuel - 1) as nat),
            Step::Halt(t) => Outcome::Done(t),
            Step::Fail(m) => Outcome::Fail(m),
            Step::ArithFail(at) => Outcome::ArithFailAt(at),
            Step::Overflow => Outcome::Overflow,
        });
        fuel = fuel - 1;
        match compute {
            ExpCompute::Let { bindings, body, ann } => {
                proof {
                    lemma_let_view(bindings, body, ann);
                }
                compute = subst_bindings(*body, &bindings);
            },
            ExpCompute::To { binding, body, ann } => {
                let (x, e1) = binding;
                stack = Stack::Cont(x, *body, Box::new(stack), ());
                compute = *e1;
            },
            ExpCompute::Returner(v, _) => match stack {
                Stack::Cont(x, body, rest, _) => {
                    compute = substCompute(body, x.as_str(), *v);
                    stack = *rest;
                },
                Stack::End(_) => {
                    return Ok(Terminal::Return(v));
                },
                _ => {
                    return error_text("Error: Stack Error while eval return");
                },
            },
            ExpCompute::Force(v, _) => match *v {
                ExpVal::Thunk(u, _) => {
                    compute = *u;
                },
                _ => {
                    assert(c0 == CompModel::Force(Box::new(v@)));
                    assert(!(v@ is Thunk));
                    return error_text("Error: Eval Force error");
                },
            },
            ExpCompute::PmSum { subject, branch1, branch2, ann } => match *subject {
                ExpVal::Sum(d, w, _) => {
                    assert(c0 == CompModel::PmSum(Box::new(subject@), branch1.0@, Box::new(branch1.1@), branch2.0@, Box::new(branch2.1@)));
                    assert(subject@ == ValModel::Sum(d, Box::new(w@)));
                    if d {
                        let (x, b) = branch1;
                        compute = substCompute(*b, x.as_str(), *w);
                    } else {
                        let (x, b) = branch2;
                        compute = substCompute(*b, x.as_str(), *w);
                    }
                },
                _ => {
                    assert(c0 == CompModel::PmSum(Box::new(subject@), branch1.0@, Box::new(branch1.1@), branch2.0@, Box::new(branch2.1@)));
                    assert(!(subject@ is Sum));
                    return error_text("Error: Eval PmSum error");
                },
            },
            ExpCompute::PmPair { subject, left, right, body, ann } => match *subject {
                ExpVal::Prod(a, b, _) => {
                    assert(c0 == CompModel::PmPair(Box::new(subject@), left@, right@, Box::new(body@)));
                    assert(subject@ == ValModel::Prod(Box::new(a@), Box::new(b@)));
                    let c1 = substCompute(*body, left.as_str(), *a);
                    compute = substCompute(c1, right.as_str(), *b);
                },
                _ => {
                    assert(c0 == CompModel::PmPair(Box::new(subject@), left@, right@, Box::new(body@)));
                    assert(!(subject@ is Prod));
                    return error_text("Error: Eval PmPair error");
                },
            },
            ExpCompute::CoPm { branch1, branch2, ann } => match stack {
                Stack::Prj(d, rest, _) => {
                    if d {
                        compute = *branch1;
                    } else {
                        compute = *branch2;
                    }
                    stack = *rest;
                },
                Stack::End(_) => {
                    return Ok(Terminal::CoPm { branch1, branch2 });
                },
                _ => {
                    return error_text("Error: Stack Error while eval CoPm");
                },
            },
            ExpCompute::Proj(d, c, _) => {
                compute = *c;
                stack = Stack::Prj(d, Box::new(stack), ());
            },
            ExpCompute::Pop(x, t, c, _) => match stack {
                Stack::Arg(v, rest, _) => {
                    compute = substCompute(*c, x.as_str(), v);
                    stack = *rest;
                },
                Stack::End(_) => {
                    return Ok(Terminal::Pop(x, c));
                },
                _ => {
                    return error_text("Error: Stack Error while eval Pop");
                },
            },
            ExpCompute::Push(v, c, _) => {
                compute = *c;
                stack = Stack::Arg(*v, Box::new(stack), ());
            },
            ExpCompute::Prim2(op, a, b, _) => match apply_prim2(op, &a, &b) {
                Applied::Value(r) => {
                    compute = ExpCompute::Returner(Box::new(r), ());
                },
                Applied::ArithMismatch => {
                    let at = ExpCompute::Prim2(op, a, b, ());
                    let mut msg = String::from_str("Error: Eval arithmetic error, compute:");
                    let rendered = debug_text(&at);
                    msg.append(rendered.as_str());
                    return Err(msg);
                },
                Applied::BoolMismatch => {
                    return error_text("Error: Eval Boolean Algebra error");
                },
            },
        }
    }
}

} // verus!
