use lib::eval::{eval, eval_with_stack, substCompute, substVal};
use lib::syntax::{ExpCompute, ExpVal, Prim2, TVal, Terminal};

fn num(n: i64) -> ExpVal<()> {
    ExpVal::Num(n, ())
}

fn boolean(b: bool) -> ExpVal<()> {
    ExpVal::Bool(b, ())
}

fn var(x: &str) -> ExpVal<()> {
    ExpVal::Var(String::from(x), ())
}

fn ret(v: ExpVal<()>) -> ExpCompute<()> {
    ExpCompute::Returner(Box::new(v), ())
}

fn prim(op: Prim2, a: ExpVal<()>, b: ExpVal<()>) -> ExpCompute<()> {
    ExpCompute::Prim2(op, Box::new(a), Box::new(b), ())
}

fn done(v: ExpVal<()>) -> Result<Terminal, String> {
    Ok(Terminal::Return(Box::new(v)))
}

fn fails(m: &str) -> Result<Terminal, String> {
    Err(String::from(m))
}

/// The identity function `x. return x` as a thunk.
fn identity_thunk() -> ExpVal<()> {
    ExpVal::Thunk(Box::new(ExpCompute::Pop(String::from("x"), TVal::Num, Box::new(ret(var("x"))), ())), ())
}

/// `let {x. return x} be f. arg ' !f`
fn apply_identity(arg: ExpVal<()>) -> ExpCompute<()> {
    ExpCompute::Let {
        bindings: vec![(String::from("f"), identity_thunk())],
        body: Box::new(ExpCompute::Push(
            Box::new(arg),
            Box::new(ExpCompute::Force(Box::new(var("f")), ())),
            (),
        )),
        ann: (),
    }
}

#[test]
fn subst_test0() {
    // test_let
    let e1 = ExpCompute::Let {
        bindings: vec![
            (String::from("x"), ExpVal::Num(3, ())),
            (String::from("y"), ExpVal::Var(String::from("z"), ())),
        ],
        body: Box::new(ExpCompute::Prim2(
            Prim2::Add,
            Box::new(ExpVal::Var(String::from("x"), ())),
            Box::new(ExpVal::Var(String::from("y"), ())),
            (),
        )),
        ann: (),
    };
    let e2 = substCompute(e1.clone(), &String::from("z"), ExpVal::Num(3, ()));
    let e3 = ExpCompute::Let {
        bindings: vec![
            (String::from("x"), ExpVal::Num(3, ())),
            (String::from("y"), ExpVal::Num(3, ())),
        ],
        body: Box::new(ExpCompute::Prim2(
            Prim2::Add,
            Box::new(ExpVal::Var(String::from("x"), ())),
            Box::new(ExpVal::Var(String::from("y"), ())),
            (),
        )),
        ann: (),
    };
    assert_eq!(e2, e3);
}

#[test]
fn eval_test0() {
    let e1: ExpCompute<()> = ExpCompute::Let {
        bindings: vec![
            (String::from("x"), ExpVal::Num(3, ())),
            (String::from("y"), ExpVal::Var(String::from("z"), ())),
        ],
        body: Box::new(ExpCompute::Prim2(
            Prim2::Add,
            Box::new(ExpVal::Var(String::from("x"), ())),
            Box::new(ExpVal::Var(String::from("y"), ())),
            (),
        )),
        ann: (),
    };
    let e2 = substCompute(e1.clone(), &String::from("z"), ExpVal::Num(3, ()));
    assert_eq!(eval(&e2), Ok(Terminal::Return(Box::new(ExpVal::Num(6, ())))));
    assert_eq!(eval_with_stack(&e2), Ok(Terminal::Return(Box::new(ExpVal::Num(6, ())))));
    let e3 = ExpCompute::To {
        binding: (String::from("x"), Box::new(e2.clone())),
        body: Box::new(ExpCompute::Prim2(
            Prim2::Sub,
            Box::new(ExpVal::Var(String::from("x"), ())),
            Box::new(ExpVal::Num(3, ())),
            (),
        )),
        ann: (),
    };
    assert_eq!(eval(&e3), Ok(Terminal::Return(Box::new(ExpVal::Num(3, ())))));
    assert_eq!(eval_with_stack(&e3), Ok(Terminal::Return(Box::new(ExpVal::Num(3, ())))));
}

#[test]
fn eval_test_identity() {
    let id0 = apply_identity(num(5));
    assert_eq!(eval(&id0), done(num(5)));
    assert_eq!(eval_with_stack(&id0), done(num(5)));

    let id1 = apply_identity(boolean(true));
    assert_eq!(eval(&id1), done(boolean(true)));
    assert_eq!(eval_with_stack(&id1), done(boolean(true)));

    let id2 = apply_identity(var("f"));
    match id2.clone() {
        ExpCompute::Let { bindings, .. } => {
            assert_eq!(eval(&id2), Ok(Terminal::Return(Box::new(bindings[0].1.clone()))));
            assert_eq!(eval_with_stack(&id2), Ok(Terminal::Return(Box::new(bindings[0].1.clone()))));
        }
        _ => unreachable!(),
    }
}

fn sum_match(subject: ExpVal<()>) -> ExpCompute<()> {
    ExpCompute::PmSum {
        subject: Box::new(subject),
        branch1: (String::from("x"), Box::new(ret(var("x")))),
        branch2: (String::from("y"), Box::new(ret(var("y")))),
        ann: (),
    }
}

#[test]
fn eval_test_sum() {
    let sum = sum_match(ExpVal::Sum(true, Box::new(num(3)), ()));
    assert_eq!(eval(&sum), done(num(3)));
    assert_eq!(eval_with_stack(&sum), done(num(3)));

    let sum2 = sum_match(ExpVal::Sum(false, Box::new(boolean(false)), ()));
    assert_eq!(eval(&sum2), done(boolean(false)));
    assert_eq!(eval_with_stack(&sum2), done(boolean(false)));
}

#[test]
fn eval_test_pair() {
    let pair = ExpCompute::PmPair {
        subject: Box::new(ExpVal::Prod(Box::new(num(1)), Box::new(num(2)), ())),
        left: String::from("x"),
        right: String::from("y"),
        body: Box::new(prim(Prim2::Add, var("x"), var("y"))),
        ann: (),
    };
    assert_eq!(eval(&pair), done(num(3)));
    assert_eq!(eval_with_stack(&pair), done(num(3)));
}

fn copattern() -> ExpCompute<()> {
    ExpCompute::CoPm {
        branch1: Box::new(prim(Prim2::Add, num(1), num(2))),
        branch2: Box::new(prim(Prim2::Sub, num(1), num(2))),
        ann: (),
    }
}

#[test]
fn eval_test_proj() {
    let proj = ExpCompute::Proj(true, Box::new(copattern()), ());
    assert_eq!(eval(&proj), done(num(3)));
    assert_eq!(eval_with_stack(&proj), done(num(3)));

    let proj = ExpCompute::Proj(false, Box::new(copattern()), ());
    assert_eq!(eval(&proj), done(num(-1)));
    assert_eq!(eval_with_stack(&proj), done(num(-1)));
}
