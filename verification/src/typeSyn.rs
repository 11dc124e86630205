use vstd::prelude::*;
use crate::syntax::{
    binds_size, binds_view, comp_size, copy_tval, lemma_binding_smaller, lemma_let_view,
    tcompute_eq, tval_eq, CompModel, ExpCompute, ExpVal, Prim2, TCompute, TVal, ValModel, val_size,
};
use crate::text::{error_text, str_eq};

verus! {

/// The verdict of type synthesis.
pub enum Judgement<T> {
    Has(T),
    Error(Seq<char>),
    /// A construct that type synthesis does not handle (it panics there).
    Unsupported,
}

/// The model of a typing environment: names with their types, latest last.
pub open spec fn env_view(g: Seq<(&str, TVal)>) -> Seq<(Seq<char>, TVal)> {
    Seq::new(g.len(), |i: int| (g[i].0@, g[i].1))
}

/// The type of the latest binding of `x` in `g`.
pub open spec fn lookup_spec(g: Seq<(Seq<char>, TVal)>, x: Seq<char>) -> Judgement<TVal>
    decreases g.len(),
{
    if g.len() == 0 {
        Judgement::Error(x + " is not defined"@)
    } else if g.last().0 == x {
        Judgement::Has(g.last().1)
    } else {
        lookup_spec(g.drop_last(), x)
    }
}

/// The type that a binary primitive gives to two operand types.
pub open spec fn prim2_type(op: Prim2, ta: TVal, tb: TVal) -> Judgement<TCompute> {
    match op {
        Prim2::Add | Prim2::Sub | Prim2::Mul => if ta is Num && tb is Num {
            Judgement::Has(TCompute::Returner(Box::new(TVal::Num)))
        } else {
            Judgement::Error("Prim2 Arithmetic Type Error"@)
        },
        Prim2::And | Prim2::Or => if ta is Bool && tb is Bool {
            Judgement::Has(TCompute::Returner(Box::new(TVal::Bool)))
        } else {
            Judgement::Error("Prim2 and/or Type Error"@)
        },
        Prim2::Lt | Prim2::Gt | Prim2::Le | Prim2::Ge => if ta is Num && tb is Num {
            Judgement::Has(TCompute::Returner(Box::new(TVal::Bool)))
        } else {
            Judgement::Error("Prim2 Compare Type Error"@)
        },
        Prim2::Eq => if (ta is Num && tb is Num) || (ta is Bool && tb is Bool) {
            Judgement::Has(TCompute::Returner(Box::new(TVal::Bool)))
        } else {
            Judgement::Error("Prim2 == Type Error"@)
        },
        Prim2::Neq => if (ta is Bool || ta is Num) && (tb is Bool || tb is Num) {
            Judgement::Has(TCompute::Returner(Box::new(TVal::Bool)))
        } else {
            Judgement::Error("Prim2 Neq Error"@)
        },
    }
}

/// Type synthesis for values.
pub open spec fn syn_val(e: ValModel, g: Seq<(Seq<char>, TVal)>) -> Judgement<TVal>
    decreases val_size(e),
{
    match e {
        ValModel::Num(_) => Judgement::Has(TVal::Num),
        ValModel::Bool(_) => Judgement::Has(TVal::Bool),
        ValModel::Var(x) => lookup_spec(g, x),
        ValModel::Thunk(c) => match syn_comp(*c, g) {
            Judgement::Has(tc) => Judgement::Has(TVal::Thunk(Box::new(tc))),
            Judgement::Error(m) => Judgement::Error(m),
            Judgement::Unsupported => Judgement::Unsupported,
        },
        ValModel::Sum(_, _) => Judgement::Unsupported,
        ValModel::Prod(a, b) => {
            let ja = syn_val(*a, g);
            let jb = syn_val(*b, g);
            if ja is Unsupported || jb is Unsupported {
                Judgement::Unsupported
            } else {
                match (ja, jb) {
                    (Judgement::Has(ta), Judgement::Has(tb)) => Judgement::Has(
                        TVal::Prod(Box::new(ta), Box::new(tb)),
                    ),
                    _ => Judgement::Error("Sum Type Error"@),
                }
            }
        },
    }
}

/// Type synthesis for the bindings of a `let`, each typed in the environment
/// extended by the ones before it, then for its body.
pub open spec fn syn_let(
    bs: Seq<(Seq<char>, ValModel)>,
    g: Seq<(Seq<char>, TVal)>,
    body: CompModel,
) -> Judgement<TCompute>
    decreases 1 + binds_size(bs) + comp_size(body),
{
    if bs.len() == 0 {
        syn_comp(body, g)
    } else {
        match syn_val(bs[0].1, g) {
            Judgement::Has(t) => syn_let(bs.subrange(1, bs.len() as int), g.push((bs[0].0, t)), body),
            Judgement::Error(m) => Judgement::Error(m),
            Judgement::Unsupported => Judgement::Unsupported,
        }
    }
}

/// Type synthesis for computations.
pub open spec fn syn_comp(e: CompModel, g: Seq<(Seq<char>, TVal)>) -> Judgement<TCompute>
    decreases comp_size(e),
{
    match e {
        CompModel::Let(bs, body) => syn_let(bs, g, *body),
        CompModel::To(_, _, _) => Judgement::Unsupported,
        CompModel::Returner(v) => match syn_val(*v, g) {
            Judgement::Has(t) => Judgement::Has(TCompute::Returner(Box::new(t))),
            Judgement::Error(m) => Judgement::Error(m),
            Judgement::Unsupported => Judgement::Unsupported,
        },
        CompModel::Force(v) => match syn_val(*v, g) {
            Judgement::Has(TVal::Thunk(t)) => Judgement::Has(*t),
            Judgement::Has(_) => Judgement::Error("Force Type Error!"@),
            Judgement::Error(m) => Judgement::Error(m),
            Judgement::Unsupported => Judgement::Unsupported,
        },
        CompModel::PmSum(s, x1, b1, x2, b2) => match syn_val(*s, g) {
            Judgement::Has(TVal::Sum(l, r)) => {
                let ja = syn_comp(*b1, g.push((x1, *l)));
                let jb = syn_comp(*b2, g.push((x2, *r)));
                if ja is Unsupported || jb is Unsupported {
                    Judgement::Unsupported
                } else {
                    match (ja, jb) {
                        (Judgement::Has(ta), Judgement::Has(tb)) => if ta == tb {
                            Judgement::Has(ta)
                        } else {
                            Judgement::Error("PmSum Type Error"@)
                        },
                        _ => Judgement::Error("PmSum Type Error"@),
                    }
                }
            },
            Judgement::Has(_) => Judgement::Error("PmSum Type Error"@),
            Judgement::Error(m) => Judgement::Error(m),
            Judgement::Unsupported => Judgement::Unsupported,
        },
        CompModel::PmPair(s, l, r, body) => match syn_val(*s, g) {
            Judgement::Has(TVal::Prod(a, b)) => syn_comp(*body, g.push((l, *a)).push((r, *b))),
            Judgement::Has(_) => Judgement::Error("PmPair Type Error"@),
            Judgement::Error(m) => Judgement::Error(m),
            Judgement::Unsupported => Judgement::Unsupported,
        },
        CompModel::CoPm(b1, b2) => {
            let ja = syn_comp(*b1, g);
            let jb = syn_comp(*b2, g);
            if ja is Unsupported || jb is Unsupported {
                Judgement::Unsupported
            } else {
                match (ja, jb) {
                    (Judgement::Has(ta), Judgement::Has(tb)) => Judgement::Has(
                        TCompute::Pi(Box::new(ta), Box::new(tb)),
                    ),
                    _ => Judgement::Error("CoPm Type Error"@),
                }
            }
        },
        CompModel::Proj(d, c) => match syn_comp(*c, g) {
            Judgement::Has(TCompute::Pi(a, b)) => Judgement::Has(
                if d {
                    *a
                } else {
                    *b
                },
            ),
            Judgement::Has(_) => Judgement::Error("Proj Type Error"@),
            Judgement::Error(m) => Judgement::Error(m),
            Judgement::Unsupported => Judgement::Unsupported,
        },
        CompModel::Pop(x, t, c) => syn_comp(*c, g.push((x, t))),
        CompModel::Push(v, c) => match syn_val(*v, g) {
            Judgement::Has(tv) => match syn_comp(*c, g) {
                Judgement::Has(TCompute::Arrow(tin, tout)) => if *tin == tv {
                    Judgement::Has(*tout)
                } else {
                    Judgement::Error("Push Type Error"@)
                },
                Judgement::Has(_) => Judgement::Error("Push Type Error"@),
                Judgement::Error(m) => Judgement::Error(m),
                Judgement::Unsupported => Judgement::Unsupported,
            },
            Judgement::Error(m) => Judgement::Error(m),
            Judgement::Unsupported => Judgement::Unsupported,
        },
        CompModel::Prim2(op, a, b) => {
            let ja = syn_val(*a, g);
            let jb = syn_val(*b, g);
            if op is Neq {
                if ja is Unsupported || jb is Unsupported {
                    Judgement::Unsupported
                } else {
                    match (ja, jb) {
                        (Judgement::Has(ta), Judgement::Has(tb)) => prim2_type(op, ta, tb),
                        _ => Judgement::Error("Prim2 Neq Error"@),
                    }
                }
            } else {
                match ja {
                    Judgement::Has(ta) => match jb {
                        Judgement::Has(tb) => prim2_type(op, ta, tb),
                        Judgement::Error(m) => Judgement::Error(m),
                        Judgement::Unsupported => Judgement::Unsupported,
                    },
                    Judgement::Error(m) => Judgement::Error(m),
                    Judgement::Unsupported => Judgement::Unsupported,
                }
            }
        },
    }
}

/// What a result of type synthesis says of a judgement.
pub open spec fn judged<T>(r: Result<T, String>, j: Judgement<T>) -> bool {
    match j {
        Judgement::Has(t) => r matches Ok(u) && u == t,
        Judgement::Error(m) => r matches Err(s) && s@ == m,
        Judgement::Unsupported => false,
    }
}

/// A result judged by a verdict is exactly the type or carries exactly the
/// error text of that verdict.
pub proof fn lemma_judged_exact<T>(r: Result<T, String>, j: Judgement<T>)
    requires
        judged(r, j),
    ensures
        match j {
            Judgement::Has(t) => r == Ok::<T, String>(t),
            Judgement::Error(m) => r is Err && r->Err_0@ == m,
            Judgement::Unsupported => false,
        },
{
}

/// The type of the latest binding of `x` in `gamma`.
pub fn lookup(gamma: &Vec<(&str, TVal)>, x: &str) -> (r: Result<TVal, String>)
    ensures
        judged(r, lookup_spec(env_view(gamma@), x@)),
{
    let ghost g = env_view(gamma@);
    let mut i: usize = gamma.len();
    assert(g.take(i as int) =~= g);
    while i > 0
        invariant
            i <= gamma@.len(),
            g == env_view(gamma@),
            lookup_spec(g, x@) == lookup_spec(g.take(i as int), x@),
        decreases i,
    {
        i = i - 1;
        proof {
            assert(g.take(i + 1).drop_last() =~= g.take(i as int));
            assert(g.take(i + 1).last() == g[i as int]);
        }
        if str_eq(gamma[i].0, x) {
            return Ok(copy_tval(&gamma[i].1));
        }
    }
    let mut s = String::from_str(x);
    s.append(" is not defined");
    Err(s)
}

/// A copy of a typing environment.
fn copy_env<'a>(g: &Vec<(&'a str, TVal)>) -> (r: Vec<(&'a str, TVal)>)
    ensures
        r@ == g@,
{
    let mut r: Vec<(&'a str, TVal)> = Vec::new();
    let mut i: usize = 0;
    while i < g.len()
        invariant
            i <= g@.len(),
            r@ =~= g@.take(i as int),
        decreases g@.len() - i,
    {
        r.push((g[i].0, copy_tval(&g[i].1)));
        i = i + 1;
        assert(r@ =~= g@.take(i as int));
    }
    assert(g@.take(i as int) =~= g@);
    r
}

proof fn lemma_env_push<'a>(g: Seq<(&'a str, TVal)>, x: &'a str, t: TVal)
    ensures
        env_view(g.push((x, t))) =~= env_view(g).push((x@, t)),
{
}

/// Synthesizes the type of a value in `gamma`.
pub fn typeSynVal<'exp>(e: &'exp ExpVal<()>, gamma: &Vec<(&'exp str, TVal)>) -> (r: Result<TVal, String>)
    requires
        !(syn_val(e@, env_view(gamma@)) is Unsupported),
    ensures
        judged(r, syn_val(e@, env_view(gamma@))),
    decreases val_size(e@),
{
    match e {
        ExpVal::Num(_, _) => Ok(TVal::Num),
        ExpVal::Bool(_, _) => Ok(TVal::Bool),
        ExpVal::Var(v, _) => lookup(gamma, v.as_str()),
        ExpVal::Thunk(t, _) => match typeSynCompute(t, gamma) {
            Ok(tc) => Ok(TVal::Thunk(Box::new(tc))),
            Err(s) => Err(s),
        },
        ExpVal::Prod(l, r, _) => {
            let jl = typeSynVal(l, gamma);
            let jr = typeSynVal(r, gamma);
            match jl {
                Ok(tvl) => match jr {
                    Ok(tvr) => Ok(TVal::Prod(Box::new(tvl), Box::new(tvr))),
                    Err(_) => error_text("Sum Type Error"),
                },
                Err(_) => error_text("Sum Type Error"),
            }
        },
        ExpVal::Sum(_, _, _) => unreached(),
    }
}

/// Synthesizes the type of a computation in `gamma`.
#[verifier::loop_isolation(false)]
pub fn typeSynCompute<'exp>(e: &'exp ExpCompute<()>, gamma: &Vec<(&'exp str, TVal)>) -> (r: Result<TCompute, String>)
    requires
        !(syn_comp(e@, env_view(gamma@)) is Unsupported),
    ensures
        judged(r, syn_comp(e@, env_view(gamma@))),
    decreases comp_size(e@),
{
    match e {
        ExpCompute::Let { bindings, body, ann } => {
            proof {
                lemma_let_view(*bindings, *body, *ann);
            }
            let ghost vs = binds_view(bindings@);
            let ghost n = bindings@.len() as int;
            let mut new_gamma = copy_env(gamma);
            let mut i: usize = 0;
            assert(vs.subrange(0, n) =~= vs);
            while i < bindings.len()
                invariant
                    i <= bindings@.len(),
                    syn_comp(e@, env_view(gamma@)) == syn_let(vs.subrange(i as int, n), env_view(new_gamma@), body@),
                decreases bindings@.len() - i,
            {
                proof {
                    lemma_binding_smaller(vs, i as int);
                    let rest = vs.subrange(i as int, n);
                    assert(rest[0] == vs[i as int]);
                    assert(rest.subrange(1, rest.len() as int) =~= vs.subrange(i + 1, n));
                }
                let tv = match typeSynVal(&bindings[i].1, &new_gamma) {
                    Ok(tv) => tv,
                    Err(s) => {
                        return Err(s);
                    },
                };
                let name = bindings[i].0.as_str();
                proof {
                    lemma_env_push(new_gamma@, name, tv);
                }
                new_gamma.push((name, tv));
                i = i + 1;
            }
            assert(vs.subrange(i as int, n).len() == 0);
            typeSynCompute(body, &new_gamma)
        },
        ExpCompute::To { binding, body, ann } => unreached(),
        ExpCompute::Returner(ev, _) => match typeSynVal(ev, gamma) {
            Ok(tv) => Ok(TCompute::Returner(Box::new(tv))),
            Err(s) => Err(s),
        },
        ExpCompute::Force(v, _) => match typeSynVal(v, gamma) {
            Ok(TVal::Thunk(t)) => Ok(*t),
            Ok(_) => error_text("Force Type Error!"),
            Err(s) => Err(s),
        },
        ExpCompute::PmSum { subject, branch1, branch2, ann } => match typeSynVal(subject, gamma) {
            Ok(TVal::Sum(l, r)) => {
                let mut gamma_l = copy_env(gamma);
                let mut gamma_r = copy_env(gamma);
                let name_l = branch1.0.as_str();
                let name_r = branch2.0.as_str();
                proof {
                    lemma_env_push(gamma_l@, name_l, *l);
                    lemma_env_push(gamma_r@, name_r, *r);
                }
                gamma_l.push((name_l, *l));
                gamma_r.push((name_r, *r));
                let jl = typeSynCompute(&branch1.1, &gamma_l);
                let jr = typeSynCompute(&branch2.1, &gamma_r);
                match jl {
                    Ok(tcl) => match jr {
                        Ok(tcr) => {
                            if tcompute_eq(&tcl, &tcr) {
                                Ok(tcl)
                            } else {
                                error_text("PmSum Type Error")
                            }
                        },
                        Err(_) => error_text("PmSum Type Error"),
                    },
                    Err(_) => error_text("PmSum Type Error"),
                }
            },
            Ok(_) => error_text("PmSum Type Error"),
            Err(s) => Err(s),
        },
        ExpCompute::PmPair { subject, left, right, body, ann } => match typeSynVal(subject, gamma) {
            Ok(TVal::Prod(tvl, tvr)) => {
                let mut new_gamma = copy_env(gamma);
                let name_l = left.as_str();
                let name_r = right.as_str();
                proof {
                    lemma_env_push(new_gamma@, name_l, *tvl);
                }
                new_gamma.push((name_l, *tvl));
                proof {
                    lemma_env_push(new_gamma@, name_r, *tvr);
                }
                new_gamma.push((name_r, *tvr));
                typeSynCompute(body, &new_gamma)
            },
            Ok(_) => error_text("PmPair Type Error"),
            Err(s) => Err(s),
        },
        ExpCompute::CoPm { branch1, branch2, ann } => {
            let jl = typeSynCompute(branch1, gamma);
            let jr = typeSynCompute(branch2, gamma);
            match jl {
                Ok(tcl) => match jr {
                    Ok(tcr) => Ok(TCompute::Pi(Box::new(tcl), Box::new(tcr))),
                    Err(_) => error_text("CoPm Type Error"),
                },
                Err(_) => error_text("CoPm Type Error"),
            }
        },
        ExpCompute::Proj(b, c, _) => match typeSynCompute(c, gamma) {
            Ok(TCompute::Pi(tcl, tcr)) => {
                if *b {
                    Ok(*tcl)
                } else {
                    Ok(*tcr)
                }
            },
            Ok(_) => error_text("Proj Type Error"),
            Err(s) => Err(s),
        },
        ExpCompute::Pop(x, tv, c, _) => {
            let mut new_gamma = copy_env(gamma);
            let name = x.as_str();
            let t = copy_tval(tv);
            proof {
                lemma_env_push(new_gamma@, name, t);
            }
            new_gamma.push((name, t));
            typeSynCompute(c, &new_gamma)
        },
        ExpCompute::Push(ev, ec, _) => {
            let tv = match typeSynVal(ev, gamma) {
                Ok(tv) => tv,
                Err(s) => {
                    return Err(s);
                },
            };
            match typeSynCompute(ec, gamma) {
                Ok(TCompute::Arrow(tin, tout)) => {
                    if tval_eq(&tin, &tv) {
                        Ok(*tout)
                    } else {
                        error_text("Push Type Error")
                    }
                },
                Ok(_) => error_text("Push Type Error"),
                Err(s) => Err(s),
            }
        },
        ExpCompute::Prim2(op, a, b, _) => {
            match op {
                Prim2::Neq => {
                    let ja = typeSynVal(a, gamma);
                    let jb = typeSynVal(b, gamma);
                    match ja {
                        Ok(tvl) => match jb {
                            Ok(tvr) => prim2_type_exec(*op, &tvl, &tvr),
                            Err(_) => error_text("Prim2 Neq Error"),
                        },
                        Err(_) => error_text("Prim2 Neq Error"),
                    }
                },
                _ => {
                    let ta = match typeSynVal(a, gamma) {
                        Ok(t) => t,
                        Err(s) => {
                            return Err(s);
                        },
                    };
                    let tb = match typeSynVal(b, gamma) {
                        Ok(t) => t,
                        Err(s) => {
                            return Err(s);
                        },
                    };
                    prim2_type_exec(*op, &ta, &tb)
                },
            }
        },
    }
}

/// The type that a binary primitive gives to two operand types.
fn prim2_type_exec(op: Prim2, ta: &TVal, tb: &TVal) -> (r: Result<TCompute, String>)
    ensures
        judged(r, prim2_type(op, *ta, *tb)),
{
    let na = matches!(ta, TVal::Num);
    let nb = matches!(tb, TVal::Num);
    let ba = matches!(ta, TVal::Bool);
    let bb = matches!(tb, TVal::Bool);
    match op {
        Prim2::Add | Prim2::Sub | Prim2::Mul => {
            if na && nb {
                Ok(TCompute::Returner(Box::new(TVal::Num)))
            } else {
                error_text("Prim2 Arithmetic Type Error")
            }
        },
        Prim2::And | Prim2::Or => {
            if ba && bb {
                Ok(TCompute::Returner(Box::new(TVal::Bool)))
            } else {
                error_text("Prim2 and/or Type Error")
            }
        },
        Prim2::Lt | Prim2::Gt | Prim2::Le | Prim2::Ge => {
            if na && nb {
                Ok(TCompute::Returner(Box::new(TVal::Bool)))
            } else {
                error_text("Prim2 Compare Type Error")
            }
        },
        Prim2::Eq => {
            if (na && nb) || (ba && bb) {
                Ok(TCompute::Returner(Box::new(TVal::Bool)))
            } else {
                error_text("Prim2 == Type Error")
            }
        },
        Prim2::Neq => {
            if (ba || na) && (bb || nb) {
                Ok(TCompute::Returner(Box::new(TVal::Bool)))
            } else {
                error_text("Prim2 Neq Error")
            }
        },
    }
}

} // verus!
