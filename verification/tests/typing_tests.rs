use lib::syntax::{ExpCompute, ExpVal, Prim2, TCompute, TVal};
use lib::typeSyn::{lookup, typeSynCompute, typeSynVal};

fn num(n: i64) -> ExpVal<()> {
    ExpVal::Num(n, ())
}

fn boolean(b: bool) -> ExpVal<()> {
    ExpVal::Bool(b, ())
}

fn var(x: &str) -> ExpVal<()> {
    ExpVal::Var(String::from(x), ())
}

fn ret(v: ExpVal<()>) -> ExpCompute<()> {
    ExpCompute::Returner(Box::new(v), ())
}

fn prim(op: Prim2, a: ExpVal<()>, b: ExpVal<()>) -> ExpCompute<()> {
    ExpCompute::Prim2(op, Box::new(a), Box::new(b), ())
}

fn ret_type(t: TVal) -> TCompute {
    TCompute::Returner(Box::new(t))
}

#[test]
fn lookup_finds_the_latest_binding() {
    let gamma = vec![("x", TVal::Num), ("y", TVal::Unit), ("x", TVal::Bool)];
    assert_eq!(lookup(&gamma, "x"), Ok(TVal::Bool));
    assert_eq!(lookup(&gamma, "y"), Ok(TVal::Unit));
    assert_eq!(lookup(&gamma, "z"), Err(String::from("z is not defined")));
    assert_eq!(lookup(&vec![], "q"), Err(String::from("q is not defined")));
}

#[test]
fn values_get_their_types() {
    let empty: Vec<(&str, TVal)> = vec![];
    assert_eq!(typeSynVal(&num(1), &empty), Ok(TVal::Num));
    assert_eq!(typeSynVal(&boolean(true), &empty), Ok(TVal::Bool));
    let pair = ExpVal::Prod(Box::new(num(1)), Box::new(boolean(false)), ());
    assert_eq!(typeSynVal(&pair, &empty), Ok(TVal::Prod(Box::new(TVal::Num), Box::new(TVal::Bool))));
    let bad = ExpVal::Prod(Box::new(var("u")), Box::new(num(1)), ());
    assert_eq!(typeSynVal(&bad, &empty), Err(String::from("Sum Type Error")));
    let thunk = ExpVal::Thunk(Box::new(ret(num(1))), ());
    assert_eq!(typeSynVal(&thunk, &empty), Ok(TVal::Thunk(Box::new(ret_type(TVal::Num)))));
    let env = vec![("v", TVal::Empty)];
    assert_eq!(typeSynVal(&var("v"), &env), Ok(TVal::Empty));
}

#[test]
fn let_types_each_binding_in_the_growing_environment() {
    let empty: Vec<(&str, TVal)> = vec![];
    let c = ExpCompute::Let {
        bindings: vec![(String::from("x"), num(1)), (String::from("y"), var("x"))],
        body: Box::new(prim(Prim2::Lt, var("x"), var("y"))),
        ann: (),
    };
    assert_eq!(typeSynCompute(&c, &empty), Ok(ret_type(TVal::Bool)));
    let c = ExpCompute::Let {
        bindings: vec![(String::from("x"), var("w"))],
        body: Box::new(ret(var("x"))),
        ann: (),
    };
    assert_eq!(typeSynCompute(&c, &empty), Err(String::from("w is not defined")));
}

#[test]
fn computations_get_their_types() {
    let empty: Vec<(&str, TVal)> = vec![];
    let thunk = ExpVal::Thunk(Box::new(ret(num(1))), ());
    assert_eq!(typeSynCompute(&ExpCompute::Force(Box::new(thunk), ()), &empty), Ok(ret_type(TVal::Num)));
    assert_eq!(
        typeSynCompute(&ExpCompute::Force(Box::new(num(1)), ()), &empty),
        Err(String::from("Force Type Error!"))
    );
    let copm = ExpCompute::CoPm { branch1: Box::new(ret(num(1))), branch2: Box::new(ret(boolean(true))), ann: () };
    let pi = TCompute::Pi(Box::new(ret_type(TVal::Num)), Box::new(ret_type(TVal::Bool)));
    assert_eq!(typeSynCompute(&copm, &empty), Ok(pi));
    let proj = ExpCompute::Proj(false, Box::new(copm.clone()), ());
    assert_eq!(typeSynCompute(&proj, &empty), Ok(ret_type(TVal::Bool)));
    let proj_bad = ExpCompute::Proj(true, Box::new(ret(num(1))), ());
    assert_eq!(typeSynCompute(&proj_bad, &empty), Err(String::from("Proj Type Error")));
    let copm_bad = ExpCompute::CoPm { branch1: Box::new(ret(var("nope"))), branch2: Box::new(ret(num(1))), ann: () };
    assert_eq!(typeSynCompute(&copm_bad, &empty), Err(String::from("CoPm Type Error")));
    let pop = ExpCompute::Pop(String::from("x"), TVal::Bool, Box::new(ret(var("x"))), ());
    assert_eq!(typeSynCompute(&pop, &empty), Ok(ret_type(TVal::Bool)));
}

#[test]
fn pattern_matches_extend_the_environment() {
    let env = vec![("s", TVal::Sum(Box::new(TVal::Num), Box::new(TVal::Bool))), ("p", TVal::Prod(Box::new(TVal::Num), Box::new(TVal::Bool)))];
    let pm = ExpCompute::PmSum {
        subject: Box::new(var("s")),
        branch1: (String::from("a"), Box::new(prim(Prim2::Gt, var("a"), num(0)))),
        branch2: (String::from("b"), Box::new(ret(var("b")))),
        ann: (),
    };
    assert_eq!(typeSynCompute(&pm, &env), Ok(ret_type(TVal::Bool)));
    let pm_bad = ExpCompute::PmSum {
        subject: Box::new(var("s")),
        branch1: (String::from("a"), Box::new(ret(var("a")))),
        branch2: (String::from("b"), Box::new(ret(var("b")))),
        ann: (),
    };
    assert_eq!(typeSynCompute(&pm_bad, &env), Err(String::from("PmSum Type Error")));
    let pm_not_sum = ExpCompute::PmSum {
        subject: Box::new(num(1)),
        branch1: (String::from("a"), Box::new(ret(var("a")))),
        branch2: (String::from("b"), Box::new(ret(var("b")))),
        ann: (),
    };
    assert_eq!(typeSynCompute(&pm_not_sum, &env), Err(String::from("PmSum Type Error")));
    let pair = ExpCompute::PmPair {
        subject: Box::new(var("p")),
        left: String::from("n"),
        right: String::from("b"),
        body: Box::new(prim(Prim2::Or, var("b"), boolean(false))),
        ann: (),
    };
    assert_eq!(typeSynCompute(&pair, &env), Ok(ret_type(TVal::Bool)));
    let pair_bad = ExpCompute::PmPair {
        subject: Box::new(num(3)),
        left: String::from("n"),
        right: String::from("b"),
        body: Box::new(ret(var("n"))),
        ann: (),
    };
    assert_eq!(typeSynCompute(&pair_bad, &env), Err(String::from("PmPair Type Error")));
}

#[test]
fn push_needs_an_arrow_with_the_argument_type() {
    let arrow = TVal::Thunk(Box::new(TCompute::Arrow(Box::new(TVal::Num), Box::new(ret_type(TVal::Bool)))));
    let env = vec![("f", arrow)];
    let force_f = ExpCompute::Force(Box::new(var("f")), ());
    let ok = ExpCompute::Push(Box::new(num(1)), Box::new(force_f.clone()), ());
    assert_eq!(typeSynCompute(&ok, &env), Ok(ret_type(TVal::Bool)));
    let wrong_arg = ExpCompute::Push(Box::new(boolean(true)), Box::new(force_f), ());
    assert_eq!(typeSynCompute(&wrong_arg, &env), Err(String::from("Push Type Error")));
    let not_arrow = ExpCompute::Push(Box::new(num(1)), Box::new(ret(num(2))), ());
    assert_eq!(typeSynCompute(&not_arrow, &env), Err(String::from("Push Type Error")));
}

#[test]
fn primitive_typing_rules() {
    let empty: Vec<(&str, TVal)> = vec![];
    assert_eq!(typeSynCompute(&prim(Prim2::Add, num(1), num(2)), &empty), Ok(ret_type(TVal::Num)));
    assert_eq!(
        typeSynCompute(&prim(Prim2::Mul, num(1), boolean(true)), &empty),
        Err(String::from("Prim2 Arithmetic Type Error"))
    );
    assert_eq!(typeSynCompute(&prim(Prim2::And, boolean(true), boolean(true)), &empty), Ok(ret_type(TVal::Bool)));
    assert_eq!(
        typeSynCompute(&prim(Prim2::Or, num(1), boolean(true)), &empty),
        Err(String::from("Prim2 and/or Type Error"))
    );
    assert_eq!(
        typeSynCompute(&prim(Prim2::Ge, boolean(true), num(1)), &empty),
        Err(String::from("Prim2 Compare Type Error"))
    );
    assert_eq!(typeSynCompute(&prim(Prim2::Eq, boolean(true), boolean(false)), &empty), Ok(ret_type(TVal::Bool)));
    assert_eq!(
        typeSynCompute(&prim(Prim2::Eq, boolean(true), num(1)), &empty),
        Err(String::from("Prim2 == Type Error"))
    );
    assert_eq!(typeSynCompute(&prim(Prim2::Neq, boolean(true), num(1)), &empty), Ok(ret_type(TVal::Bool)));
    assert_eq!(
        typeSynCompute(&prim(Prim2::Neq, var("missing"), num(1)), &empty),
        Err(String::from("Prim2 Neq Error"))
    );
    // Other operators report an undefined operand as it is.
    assert_eq!(
        typeSynCompute(&prim(Prim2::Add, var("missing"), num(1)), &empty),
        Err(String::from("missing is not defined"))
    );
}
