use lib::eval::{eval, eval_with_stack, substCompute};
use lib::syntax::{ExpCompute, ExpVal, Prim2, TCompute, TVal, Terminal};
use lib::typeSyn::typeSynCompute;

fn num(n: i64) -> ExpVal<()> {
    ExpVal::Num(n, ())
}

fn var(x: &str) -> ExpVal<()> {
    ExpVal::Var(String::from(x), ())
}

fn ret(v: ExpVal<()>) -> ExpCompute<()> {
    ExpCompute::Returner(Box::new(v), ())
}

fn prim(op: Prim2, a: ExpVal<()>, b: ExpVal<()>) -> ExpCompute<()> {
    ExpCompute::Prim2(op, Box::new(a), Box::new(b), ())
}

fn pop(x: &str, body: ExpCompute<()>) -> ExpCompute<()> {
    ExpCompute::Pop(String::from(x), TVal::Num, Box::new(body), ())
}

fn to(x: &str, e: ExpCompute<()>, body: ExpCompute<()>) -> ExpCompute<()> {
    ExpCompute::To { binding: (String::from(x), Box::new(e)), body: Box::new(body), ann: () }
}

fn copm(a: ExpCompute<()>, b: ExpCompute<()>) -> ExpCompute<()> {
    ExpCompute::CoPm { branch1: Box::new(a), branch2: Box::new(b), ann: () }
}

#[test]
fn to_evaluates_its_bound_computation_first() {
    let body = prim(Prim2::Mul, var("x"), num(2));
    let bound = prim(Prim2::Add, num(1), num(2));
    let c = to("x", bound.clone(), body.clone());
    let Ok(Terminal::Return(v)) = eval(&bound) else { panic!() };
    assert_eq!(eval(&c), eval(&substCompute(body.clone(), "x", *v)));
    assert_eq!(eval(&c), Ok(Terminal::Return(Box::new(num(6)))));
    // A failing bound computation makes the whole fail alike.
    let bad = ExpCompute::Force(Box::new(num(0)), ());
    assert_eq!(eval(&to("x", bad.clone(), body.clone())), eval(&bad));
    // A bound computation that stops otherwise gives the `to` error.
    assert_eq!(eval(&to("x", copm(ret(num(1)), ret(num(2))), body)), Err(String::from("Error: Eval To error")));
}

#[test]
fn machine_under_pending_frames() {
    // A `to` frame met by a copattern match.
    let c = to("x", copm(ret(num(1)), ret(num(2))), ret(var("x")));
    assert_eq!(eval_with_stack(&c), Err(String::from("Error: Stack Error while eval CoPm")));
    // A projection of a computation that stops at a copattern match.
    let thunk = ExpVal::Thunk(Box::new(copm(ret(num(1)), ret(num(2)))), ());
    let p = ExpCompute::Proj(false, Box::new(ExpCompute::Force(Box::new(thunk), ())), ());
    assert_eq!(eval_with_stack(&p), eval_with_stack(&ret(num(2))));
    // A projection met by a `pop`.
    let p = ExpCompute::Proj(true, Box::new(pop("x", ret(var("x")))), ());
    assert_eq!(eval_with_stack(&p), Err(String::from("Error: Stack Error while eval Pop")));
    // An argument pushed onto a computation that stops at a `pop`.
    let inner = ExpCompute::Let { bindings: vec![], body: Box::new(pop("y", prim(Prim2::Sub, var("y"), num(1)))), ann: () };
    let q = ExpCompute::Push(Box::new(num(10)), Box::new(inner), ());
    assert_eq!(eval_with_stack(&q), eval_with_stack(&prim(Prim2::Sub, num(10), num(1))));
    // An argument pushed onto a returned value.
    let r = ExpCompute::Push(Box::new(num(10)), Box::new(ret(num(3))), ());
    assert_eq!(eval_with_stack(&r), Err(String::from("Error: Stack Error while eval return")));
}

#[test]
fn unused_entries_leave_typing_unchanged() {
    let c = ExpCompute::Let {
        bindings: vec![(String::from("x"), num(1)), (String::from("y"), var("x"))],
        body: Box::new(prim(Prim2::Lt, var("x"), var("y"))),
        ann: (),
    };
    let plain: Vec<(&str, TVal)> = vec![("a", TVal::Num)];
    let extended: Vec<(&str, TVal)> = vec![("a", TVal::Num), ("unused", TVal::Bool)];
    assert_eq!(typeSynCompute(&c, &plain), typeSynCompute(&c, &extended));
    assert_eq!(typeSynCompute(&c, &plain), Ok(TCompute::Returner(Box::new(TVal::Bool))));
    let bad = ret(var("q"));
    assert_eq!(typeSynCompute(&bad, &plain), typeSynCompute(&bad, &extended));
}

#[test]
fn substitution_without_binders_replaces_every_occurrence() {
    let c = ExpCompute::Push(
        Box::new(var("x")),
        Box::new(copm(ret(var("x")), prim(Prim2::Add, var("x"), var("y")))),
        (),
    );
    let expected = ExpCompute::Push(
        Box::new(num(0)),
        Box::new(copm(ret(num(0)), prim(Prim2::Add, num(0), var("y")))),
        (),
    );
    assert_eq!(substCompute(c, "x", num(0)), expected);
}

#[test]
fn clone_clones_every_annotation() {
    let e: ExpCompute<u32> = ExpCompute::Let {
        bindings: vec![(String::from("a"), ExpVal::Num(1, 11))],
        body: Box::new(ExpCompute::Returner(Box::new(ExpVal::Var(String::from("a"), 12)), 13)),
        ann: 14,
    };
    assert_eq!(e.clone(), e);
    let v: ExpVal<String> = ExpVal::Prod(
        Box::new(ExpVal::Bool(true, String::from("left"))),
        Box::new(ExpVal::Num(2, String::from("right"))),
        String::from("pair"),
    );
    assert_eq!(v.clone(), v);
}
