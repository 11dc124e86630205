use lib::eval::{eval, eval_with_stack, substCompute, substVal};
use lib::syntax::{ExpCompute, ExpVal, Prim2, TVal, Terminal};

fn num(n: i64) -> ExpVal<()> {
    ExpVal::Num(n, ())
}

fn boolean(b: bool) -> ExpVal<()> {
    ExpVal::Bool(b, ())
}

fn var(x: &str) -> ExpVal<()> {
    ExpVal::Var(String::from(x), ())
}

fn ret(v: ExpVal<()>) -> ExpCompute<()> {
    ExpCompute::Returner(Box::new(v), ())
}

fn prim(op: Prim2, a: ExpVal<()>, b: ExpVal<()>) -> ExpCompute<()> {
    ExpCompute::Prim2(op, Box::new(a), Box::new(b), ())
}

fn pop(x: &str, body: ExpCompute<()>) -> ExpCompute<()> {
    ExpCompute::Pop(String::from(x), TVal::Num, Box::new(body), ())
}

fn push(v: ExpVal<()>, c: ExpCompute<()>) -> ExpCompute<()> {
    ExpCompute::Push(Box::new(v), Box::new(c), ())
}

fn done(v: ExpVal<()>) -> Result<Terminal, String> {
    Ok(Terminal::Return(Box::new(v)))
}

fn fails(m: &str) -> Result<Terminal, String> {
    Err(String::from(m))
}

fn both(c: &ExpCompute<()>) -> (Result<Terminal, String>, Result<Terminal, String>) {
    (eval(c), eval_with_stack(c))
}

#[test]
fn prim2_each_operator() {
    let cases = vec![
        (Prim2::Add, num(7), num(5), num(12)),
        (Prim2::Sub, num(7), num(5), num(2)),
        (Prim2::Mul, num(7), num(-5), num(-35)),
        (Prim2::Lt, num(7), num(5), boolean(false)),
        (Prim2::Gt, num(7), num(5), boolean(true)),
        (Prim2::Le, num(5), num(5), boolean(true)),
        (Prim2::Ge, num(4), num(5), boolean(false)),
        (Prim2::Eq, num(5), num(5), boolean(true)),
        (Prim2::Neq, num(5), num(5), boolean(false)),
        (Prim2::And, boolean(true), boolean(false), boolean(false)),
        (Prim2::Or, boolean(true), boolean(false), boolean(true)),
    ];
    for (op, a, b, r) in cases {
        let c = prim(op, a, b);
        assert_eq!(eval(&c), done(r.clone()));
        assert_eq!(eval_with_stack(&c), done(r));
    }
}

#[test]
fn eval_errors_name_their_construct() {
    assert_eq!(eval(&ExpCompute::Force(Box::new(num(1)), ())), fails("Error: Eval Force error"));
    let pm = ExpCompute::PmSum {
        subject: Box::new(num(1)),
        branch1: (String::from("x"), Box::new(ret(var("x")))),
        branch2: (String::from("y"), Box::new(ret(var("y")))),
        ann: (),
    };
    assert_eq!(eval(&pm), fails("Error: Eval PmSum error"));
    assert_eq!(eval_with_stack(&pm), fails("Error: Eval PmSum error"));
    let pair = ExpCompute::PmPair {
        subject: Box::new(num(1)),
        left: String::from("x"),
        right: String::from("y"),
        body: Box::new(ret(var("x"))),
        ann: (),
    };
    assert_eq!(eval(&pair), fails("Error: Eval PmPair error"));
    assert_eq!(eval_with_stack(&pair), fails("Error: Eval PmPair error"));
    assert_eq!(eval(&ExpCompute::Proj(true, Box::new(ret(num(1))), ())), fails("Error: Eval Proj error"));
    assert_eq!(eval(&push(num(1), ret(num(2)))), fails("Error: Eval Push error"));
    assert_eq!(eval(&prim(Prim2::Add, boolean(true), num(1))), fails("Error: Eval arithmetic error"));
    assert_eq!(eval(&prim(Prim2::And, num(1), boolean(true))), fails("Error: Eval Boolean Algebra error"));
    assert_eq!(eval_with_stack(&prim(Prim2::Or, num(1), boolean(true))), fails("Error: Eval Boolean Algebra error"));
    let to = ExpCompute::To {
        binding: (String::from("x"), Box::new(pop("y", ret(var("y"))))),
        body: Box::new(ret(var("x"))),
        ann: (),
    };
    assert_eq!(eval(&to), fails("Error: Eval To error"));
}

#[test]
fn machine_stack_errors() {
    // A value returned to a projection frame.
    assert_eq!(
        eval_with_stack(&ExpCompute::Proj(true, Box::new(ret(num(1))), ())),
        fails("Error: Stack Error while eval return")
    );
    // A copattern match meeting an argument.
    let copm = ExpCompute::CoPm { branch1: Box::new(ret(num(1))), branch2: Box::new(ret(num(2))), ann: () };
    assert_eq!(eval_with_stack(&push(num(0), copm)), fails("Error: Stack Error while eval CoPm"));
    // A pop meeting a projection.
    assert_eq!(
        eval_with_stack(&ExpCompute::Proj(false, Box::new(pop("x", ret(var("x")))), ())),
        fails("Error: Stack Error while eval Pop")
    );
    // A pop meeting a continuation of `to`.
    let to = ExpCompute::To {
        binding: (String::from("x"), Box::new(pop("y", ret(var("y"))))),
        body: Box::new(ret(var("x"))),
        ann: (),
    };
    assert_eq!(eval_with_stack(&to), fails("Error: Stack Error while eval Pop"));
}

#[test]
fn machine_arithmetic_error_renders_the_computation() {
    let c = prim(Prim2::Mul, num(2), boolean(false));
    let expected = format!("Error: Eval arithmetic error, compute:{:?}", c);
    assert_eq!(eval_with_stack(&c), Err(expected));
    assert!(format!("{:?}", c).contains("Mul"));
}

#[test]
fn terminal_forms() {
    let copm = ExpCompute::CoPm { branch1: Box::new(ret(num(1))), branch2: Box::new(ret(num(2))), ann: () };
    let expected = Ok(Terminal::CoPm { branch1: Box::new(ret(num(1))), branch2: Box::new(ret(num(2))) });
    assert_eq!(eval(&copm), expected.clone());
    assert_eq!(eval_with_stack(&copm), expected);
    let p = pop("x", ret(var("x")));
    let expected = Ok(Terminal::Pop(String::from("x"), Box::new(ret(var("x")))));
    assert_eq!(eval(&p), expected.clone());
    assert_eq!(eval_with_stack(&p), expected);
}

#[test]
fn machine_succeeds_where_eval_needs_a_literal_copattern() {
    // `prj1 (let in copm{...})`: the big-step evaluator only projects out of a
    // copattern written in place, the machine evaluates under the frame.
    let inner = ExpCompute::Let {
        bindings: vec![],
        body: Box::new(ExpCompute::CoPm { branch1: Box::new(ret(num(1))), branch2: Box::new(ret(num(2))), ann: () }),
        ann: (),
    };
    let c = ExpCompute::Proj(true, Box::new(inner), ());
    assert_eq!(eval(&c), fails("Error: Eval Proj error"));
    assert_eq!(eval_with_stack(&c), done(num(1)));
}

#[test]
fn machine_agrees_with_eval_on_nested_programs() {
    // bind (5 ' {x. x * x}) to y. pm (y, true) {(a, b). if-free use: a - 1}
    let square = ExpVal::Thunk(Box::new(pop("x", prim(Prim2::Mul, var("x"), var("x")))), ());
    let c = ExpCompute::To {
        binding: (String::from("y"), Box::new(push(num(5), ExpCompute::Force(Box::new(square), ())))),
        body: Box::new(ExpCompute::PmPair {
            subject: Box::new(ExpVal::Prod(Box::new(var("y")), Box::new(boolean(true)), ())),
            left: String::from("a"),
            right: String::from("b"),
            body: Box::new(prim(Prim2::Sub, var("a"), num(1))),
            ann: (),
        }),
        ann: (),
    };
    let (r1, r2) = both(&c);
    assert_eq!(r1, done(num(24)));
    assert_eq!(r2, done(num(24)));
}

#[test]
fn let_substitutes_into_the_body_in_order() {
    // let x = 1, y = x in x + y: the bindings go into the body one after the
    // other, and the value of `y` is the variable `x` as written.
    let c = ExpCompute::Let {
        bindings: vec![(String::from("x"), num(1)), (String::from("y"), var("x"))],
        body: Box::new(prim(Prim2::Add, var("x"), var("y"))),
        ann: (),
    };
    assert_eq!(eval(&c), fails("Error: Eval arithmetic error"));
    // let x = 1, y = 2 in x - y
    let c = ExpCompute::Let {
        bindings: vec![(String::from("x"), num(1)), (String::from("y"), num(2))],
        body: Box::new(prim(Prim2::Sub, var("x"), var("y"))),
        ann: (),
    };
    assert_eq!(eval(&c), done(num(-1)));
    assert_eq!(eval_with_stack(&c), done(num(-1)));
    // let y = x, x = 5 in y: `x` replaces the `x` that `y` brought in.
    let c = ExpCompute::Let {
        bindings: vec![(String::from("y"), var("x")), (String::from("x"), num(5))],
        body: Box::new(ret(var("y"))),
        ann: (),
    };
    assert_eq!(eval(&c), done(num(5)));
    assert_eq!(eval_with_stack(&c), done(num(5)));
}

#[test]
fn subst_replaces_only_the_named_variable() {
    let v = ExpVal::Prod(Box::new(var("x")), Box::new(var("y")), ());
    let r = substVal(v, "x", num(9));
    assert_eq!(r, ExpVal::Prod(Box::new(num(9)), Box::new(var("y")), ()));
    let r = substVal(ExpVal::Sum(false, Box::new(var("xx")), ()), "x", num(9));
    assert_eq!(r, ExpVal::Sum(false, Box::new(var("xx")), ()));
}

#[test]
fn subst_stops_at_binders() {
    let p = pop("x", ret(var("x")));
    assert_eq!(substCompute(p.clone(), "x", num(1)), p);
    let p2 = pop("y", ret(var("x")));
    assert_eq!(substCompute(p2, "x", num(1)), pop("y", ret(num(1))));
    let sum = ExpCompute::PmSum {
        subject: Box::new(var("x")),
        branch1: (String::from("x"), Box::new(ret(var("x")))),
        branch2: (String::from("y"), Box::new(ret(var("x")))),
        ann: (),
    };
    let expected = ExpCompute::PmSum {
        subject: Box::new(num(4)),
        branch1: (String::from("x"), Box::new(ret(var("x")))),
        branch2: (String::from("y"), Box::new(ret(num(4)))),
        ann: (),
    };
    assert_eq!(substCompute(sum, "x", num(4)), expected);
    let pair = ExpCompute::PmPair {
        subject: Box::new(var("x")),
        left: String::from("a"),
        right: String::from("x"),
        body: Box::new(ret(var("x"))),
        ann: (),
    };
    let expected = ExpCompute::PmPair {
        subject: Box::new(num(4)),
        left: String::from("a"),
        right: String::from("x"),
        body: Box::new(ret(var("x"))),
        ann: (),
    };
    assert_eq!(substCompute(pair, "x", num(4)), expected);
    // A `to` binding `x`: the bound computation keeps `x`, the body does not.
    let to = ExpCompute::To {
        binding: (String::from("x"), Box::new(ret(var("x")))),
        body: Box::new(ret(var("x"))),
        ann: (),
    };
    let expected = ExpCompute::To {
        binding: (String::from("x"), Box::new(ret(var("x")))),
        body: Box::new(ret(num(4))),
        ann: (),
    };
    assert_eq!(substCompute(to, "x", num(4)), expected);
    // A `let` binding `x` keeps that binding's value and substitutes the rest.
    let l = ExpCompute::Let {
        bindings: vec![(String::from("x"), var("x")), (String::from("y"), var("x"))],
        body: Box::new(ret(var("x"))),
        ann: (),
    };
    let expected = ExpCompute::Let {
        bindings: vec![(String::from("x"), var("x")), (String::from("y"), num(4))],
        body: Box::new(ret(num(4))),
        ann: (),
    };
    assert_eq!(substCompute(l, "x", num(4)), expected);
}

#[test]
fn subst_of_an_absent_variable_changes_nothing() {
    let c = ExpCompute::Let {
        bindings: vec![(String::from("a"), num(1))],
        body: Box::new(push(var("a"), ExpCompute::Force(Box::new(var("f")), ()))),
        ann: (),
    };
    assert_eq!(substCompute(c.clone(), "zzz", num(0)), c);
}

#[test]
fn clone_keeps_the_tree() {
    let c = ExpCompute::Let {
        bindings: vec![(String::from("a"), ExpVal::Thunk(Box::new(ret(num(1))), ()))],
        body: Box::new(ret(var("a"))),
        ann: (),
    };
    assert_eq!(c.clone(), c);
}
