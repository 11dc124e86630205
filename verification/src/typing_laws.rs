use vstd::prelude::*;
use crate::syntax::{binds_size, comp_size, CompModel, Prim2, TCompute, TVal, ValModel, val_size};
use crate::typeSyn::{env_view, lookup_spec, syn_comp, syn_let, syn_val, Judgement};
use crate::laws::{comp_mentions, val_mentions};

verus! {

/// A binding of `y` anywhere in an environment changes no lookup of another name.
pub proof fn lemma_lookup_unused(
    g1: Seq<(Seq<char>, TVal)>,
    y: Seq<char>,
    t: TVal,
    g2: Seq<(Seq<char>, TVal)>,
    x: Seq<char>,
)
    requires
        x != y,
    ensures
        lookup_spec(g1 + seq![(y, t)] + g2, x) == lookup_spec(g1 + g2, x),
    decreases g2.len(),
{
    let big = g1 + seq![(y, t)] + g2;
    if g2.len() == 0 {
        assert(big.drop_last() =~= g1);
        assert(g1 + g2 =~= g1);
    } else {
        let g2s = g2.drop_last();
        assert(big.drop_last() =~= g1 + seq![(y, t)] + g2s);
        assert((g1 + g2).drop_last() =~= g1 + g2s);
        lemma_lookup_unused(g1, y, t, g2s, x);
    }
}

proof fn lemma_push_inside(
    g1: Seq<(Seq<char>, TVal)>,
    y: Seq<char>,
    t: TVal,
    g2: Seq<(Seq<char>, TVal)>,
    p: (Seq<char>, TVal),
)
    ensures
        (g1 + seq![(y, t)] + g2).push(p) =~= g1 + seq![(y, t)] + g2.push(p),
        (g1 + g2).push(p) =~= g1 + g2.push(p),
{
}

/// An entry for a name that does not occur in a value changes neither its type
/// nor its error.
pub proof fn lemma_syn_val_unused(
    e: ValModel,
    g1: Seq<(Seq<char>, TVal)>,
    y: Seq<char>,
    t: TVal,
    g2: Seq<(Seq<char>, TVal)>,
)
    requires
        !val_mentions(e, y),
    ensures
        syn_val(e, g1 + seq![(y, t)] + g2) == syn_val(e, g1 + g2),
    decreases val_size(e),
{
    match e {
        ValModel::Var(x) => lemma_lookup_unused(g1, y, t, g2, x),
        ValModel::Thunk(c) => lemma_syn_comp_unused(*c, g1, y, t, g2),
        ValModel::Prod(a, b) => {
            lemma_syn_val_unused(*a, g1, y, t, g2);
            lemma_syn_val_unused(*b, g1, y, t, g2);
        },
        _ => {},
    }
}

proof fn lemma_syn_let_unused(
    bs: Seq<(Seq<char>, ValModel)>,
    g1: Seq<(Seq<char>, TVal)>,
    y: Seq<char>,
    t: TVal,
    g2: Seq<(Seq<char>, TVal)>,
    body: CompModel,
)
    requires
        forall|i: int| 0 <= i < bs.len() ==> !val_mentions(#[trigger] bs[i].1, y),
        !comp_mentions(body, y),
    ensures
        syn_let(bs, g1 + seq![(y, t)] + g2, body) == syn_let(bs, g1 + g2, body),
    decreases 1 + binds_size(bs) + comp_size(body),
{
    if bs.len() == 0 {
        lemma_syn_comp_unused(body, g1, y, t, g2);
    } else {
        assert(!val_mentions(bs[0].1, y));
        lemma_syn_val_unused(bs[0].1, g1, y, t, g2);
        if let crate::typeSyn::Judgement::Has(tv) = syn_val(bs[0].1, g1 + g2) {
            let rest = bs.subrange(1, bs.len() as int);
            assert forall|i: int| 0 <= i < rest.len() implies !val_mentions(#[trigger] rest[i].1, y) by {
                assert(rest[i] == bs[i + 1]);
            }
            let p = (bs[0].0, tv);
            lemma_push_inside(g1, y, t, g2, p);
            lemma_syn_let_unused(rest, g1, y, t, g2.push(p), body);
        }
    }
}

/// An entry for a name that does not occur in a computation changes neither
/// its type nor its error, wherever the entry stands in the environment.
pub proof fn lemma_syn_comp_unused(
    e: CompModel,
    g1: Seq<(Seq<char>, TVal)>,
    y: Seq<char>,
    t: TVal,
    g2: Seq<(Seq<char>, TVal)>,
)
    requires
        !comp_mentions(e, y),
    ensures
        syn_comp(e, g1 + seq![(y, t)] + g2) == syn_comp(e, g1 + g2),
    decreases comp_size(e),
{
    match e {
        CompModel::Let(bs, body) => {
            assert forall|i: int| 0 <= i < bs.len() implies !val_mentions(#[trigger] bs[i].1, y) by {}
            lemma_syn_let_unused(bs, g1, y, t, g2, *body);
        },
        CompModel::Returner(v) => lemma_syn_val_unused(*v, g1, y, t, g2),
        CompModel::Force(v) => lemma_syn_val_unused(*v, g1, y, t, g2),
        CompModel::PmSum(s, x1, b1, x2, b2) => {
            lemma_syn_val_unused(*s, g1, y, t, g2);
            if let crate::typeSyn::Judgement::Has(TVal::Sum(l, r)) = syn_val(*s, g1 + g2) {
                lemma_push_inside(g1, y, t, g2, (x1, *l));
                lemma_push_inside(g1, y, t, g2, (x2, *r));
                lemma_syn_comp_unused(*b1, g1, y, t, g2.push((x1, *l)));
                lemma_syn_comp_unused(*b2, g1, y, t, g2.push((x2, *r)));
            }
        },
        CompModel::PmPair(s, l, r, body) => {
            lemma_syn_val_unused(*s, g1, y, t, g2);
            if let crate::typeSyn::Judgement::Has(TVal::Prod(a, b)) = syn_val(*s, g1 + g2) {
                let g2a = g2.push((l, *a));
                lemma_push_inside(g1, y, t, g2, (l, *a));
                lemma_push_inside(g1, y, t, g2a, (r, *b));
                lemma_syn_comp_unused(*body, g1, y, t, g2a.push((r, *b)));
            }
        },
        CompModel::CoPm(b1, b2) => {
            lemma_syn_comp_unused(*b1, g1, y, t, g2);
            lemma_syn_comp_unused(*b2, g1, y, t, g2);
        },
        CompModel::Proj(_, c) => lemma_syn_comp_unused(*c, g1, y, t, g2),
        CompModel::Pop(x, tx, c) => {
            lemma_push_inside(g1, y, t, g2, (x, tx));
            lemma_syn_comp_unused(*c, g1, y, t, g2.push((x, tx)));
        },
        CompModel::Push(v, c) => {
            lemma_syn_val_unused(*v, g1, y, t, g2);
            lemma_syn_comp_unused(*c, g1, y, t, g2);
        },
        CompModel::Prim2(_, a, b) => {
            lemma_syn_val_unused(*a, g1, y, t, g2);
            lemma_syn_val_unused(*b, g1, y, t, g2);
        },
        CompModel::To(_, _, _) => {},
    }
}

// ---------------------------------------------------------------------
// Typing rules, one construct at a time
// ---------------------------------------------------------------------

/// Numbers and booleans have their base types; a variable has the type of its
/// latest binding, and is undefined in an empty environment.
pub proof fn lemma_type_atoms(g: Seq<(Seq<char>, TVal)>, n: i64, b: bool, x: Seq<char>, t: TVal)
    ensures
        syn_val(ValModel::Num(n), g) == Judgement::Has(TVal::Num),
        syn_val(ValModel::Bool(b), g) == Judgement::Has(TVal::Bool),
        syn_val(ValModel::Var(x), g.push((x, t))) == Judgement::Has(t),
        syn_val(ValModel::Var(x), Seq::empty()) == Judgement::<TVal>::Error(x + " is not defined"@),
{
    assert(g.push((x, t)).last() == (x, t));
}

/// A thunk is typed in the environment it stands in: where its computation has
/// type `T`, the thunk has type `Thunk(T)`; where the computation is refused,
/// the thunk is refused with the same message.
pub proof fn lemma_type_thunk(c: CompModel, g: Seq<(Seq<char>, TVal)>)
    ensures
        syn_comp(c, g) matches Judgement::Has(t) ==> syn_val(ValModel::Thunk(Box::new(c)), g)
            == Judgement::Has(TVal::Thunk(Box::new(t))),
        syn_comp(c, g) matches Judgement::Error(m) ==> syn_val(ValModel::Thunk(Box::new(c)), g)
            == Judgement::<TVal>::Error(m),
{
}

/// A pair of typed values has the pair of their types.
pub proof fn lemma_type_pair(a: ValModel, b: ValModel, g: Seq<(Seq<char>, TVal)>, ta: TVal, tb: TVal)
    requires
        syn_val(a, g) == Judgement::Has(ta),
        syn_val(b, g) == Judgement::Has(tb),
    ensures
        syn_val(ValModel::Prod(Box::new(a), Box::new(b)), g) == Judgement::Has(
            TVal::Prod(Box::new(ta), Box::new(tb)),
        ),
{
}

/// Returning a value of type `T` has type `Returner(T)`; forcing a value of
/// type `Thunk(C)` has type `C`.
pub proof fn lemma_type_return_force(v: ValModel, g: Seq<(Seq<char>, TVal)>, t: TVal, c: TCompute)
    ensures
        syn_val(v, g) == Judgement::Has(t) ==> syn_comp(CompModel::Returner(Box::new(v)), g)
            == Judgement::Has(TCompute::Returner(Box::new(t))),
        syn_val(v, g) == Judgement::Has(TVal::Thunk(Box::new(c))) ==> syn_comp(CompModel::Force(Box::new(v)), g)
            == Judgement::Has(c),
{
}

/// A copattern match of branches of types `A` and `B` has type `Pi(A, B)`;
/// projecting out of a computation of type `Pi(A, B)` gives `A` for `true`
/// and `B` for `false`.
pub proof fn lemma_type_copm_proj(c1: CompModel, c2: CompModel, c: CompModel, g: Seq<(Seq<char>, TVal)>, a: TCompute, b: TCompute)
    ensures
        syn_comp(c1, g) == Judgement::Has(a) && syn_comp(c2, g) == Judgement::Has(b) ==> syn_comp(
            CompModel::CoPm(Box::new(c1), Box::new(c2)),
            g,
        ) == Judgement::Has(TCompute::Pi(Box::new(a), Box::new(b))),
        syn_comp(c, g) == Judgement::Has(TCompute::Pi(Box::new(a), Box::new(b))) ==> {
            &&& syn_comp(CompModel::Proj(true, Box::new(c)), g) == Judgement::Has(a)
            &&& syn_comp(CompModel::Proj(false, Box::new(c)), g) == Judgement::Has(b)
        },
{
}

/// A `pop` of `x` at type `t` types its body with `x : t` added last.
pub proof fn lemma_type_pop(x: Seq<char>, t: TVal, c: CompModel, g: Seq<(Seq<char>, TVal)>)
    ensures
        syn_comp(CompModel::Pop(x, t, Box::new(c)), g) == syn_comp(c, g.push((x, t))),
{
}

/// Pushing a value of type `T` onto a computation of type `Arrow(T, C)` has
/// type `C`; onto an arrow from another type it is refused.
pub proof fn lemma_type_push(v: ValModel, c: CompModel, g: Seq<(Seq<char>, TVal)>, t: TVal, tin: TVal, out: TCompute)
    requires
        syn_val(v, g) == Judgement::Has(t),
        syn_comp(c, g) == Judgement::Has(TCompute::Arrow(Box::new(tin), Box::new(out))),
    ensures
        tin == t ==> syn_comp(CompModel::Push(Box::new(v), Box::new(c)), g) == Judgement::Has(out),
        tin != t ==> syn_comp(CompModel::Push(Box::new(v), Box::new(c)), g) == Judgement::<TCompute>::Error(
            "Push Type Error"@,
        ),
{
}

/// A pair match on a subject of type `Prod(A, B)` types its body with its left
/// variable at `A` and then its right variable at `B` added.
pub proof fn lemma_type_pm_pair(s: ValModel, l: Seq<char>, r: Seq<char>, body: CompModel, g: Seq<(Seq<char>, TVal)>, a: TVal, b: TVal)
    requires
        syn_val(s, g) == Judgement::Has(TVal::Prod(Box::new(a), Box::new(b))),
    ensures
        syn_comp(CompModel::PmPair(Box::new(s), l, r, Box::new(body)), g) == syn_comp(body, g.push((l, a)).push((r, b))),
{
}

/// A match on a subject of type `Sum(A, B)` types its first branch with its
/// variable at `A` and its second with its variable at `B`; where both have the
/// same type, so has the match, and where they differ, it is refused.
pub proof fn lemma_type_pm_sum(
    s: ValModel,
    x1: Seq<char>,
    b1: CompModel,
    x2: Seq<char>,
    b2: CompModel,
    g: Seq<(Seq<char>, TVal)>,
    a: TVal,
    b: TVal,
    t1: TCompute,
    t2: TCompute,
)
    requires
        syn_val(s, g) == Judgement::Has(TVal::Sum(Box::new(a), Box::new(b))),
        syn_comp(b1, g.push((x1, a))) == Judgement::Has(t1),
        syn_comp(b2, g.push((x2, b))) == Judgement::Has(t2),
    ensures
        ({
            let c = CompModel::PmSum(Box::new(s), x1, Box::new(b1), x2, Box::new(b2));
            &&& t1 == t2 ==> syn_comp(c, g) == Judgement::Has(t1)
            &&& t1 != t2 ==> syn_comp(c, g) == Judgement::<TCompute>::Error("PmSum Type Error"@)
        }),
{
}

/// A `let` with no bindings has the type of its body; a `let` types its first
/// binding in the current environment and the rest with that binding added.
pub proof fn lemma_type_let(bs: Seq<(Seq<char>, ValModel)>, body: CompModel, g: Seq<(Seq<char>, TVal)>, t: TVal)
    ensures
        syn_comp(CompModel::Let(Seq::empty(), Box::new(body)), g) == syn_comp(body, g),
        bs.len() > 0 && syn_val(bs[0].1, g) == Judgement::Has(t) ==> syn_comp(CompModel::Let(bs, Box::new(body)), g)
            == syn_comp(CompModel::Let(bs.drop_first(), Box::new(body)), g.push((bs[0].0, t))),
        bs.len() > 0 && syn_val(bs[0].1, g) is Error ==> syn_comp(CompModel::Let(bs, Box::new(body)), g)
            == Judgement::<TCompute>::Error(syn_val(bs[0].1, g)->Error_0),
{
    let e: Seq<(Seq<char>, ValModel)> = Seq::empty();
    assert(syn_comp(CompModel::Let(e, Box::new(body)), g) == syn_let(e, g, body));
    assert(syn_let(e, g, body) == syn_comp(body, g));
    if bs.len() > 0 {
        let rest = bs.drop_first();
        assert(bs.subrange(1, bs.len() as int) =~= rest);
        assert(syn_comp(CompModel::Let(bs, Box::new(body)), g) == syn_let(bs, g, body));
        assert(syn_comp(CompModel::Let(rest, Box::new(body)), g.push((bs[0].0, t))) == syn_let(
            rest,
            g.push((bs[0].0, t)),
            body,
        ));
    }
}

/// On operands of base types: `+`, `-`, `*` of numbers return a number;
/// comparisons of numbers, `==` and `!=` of numbers or of booleans, and `and`,
/// `or` of booleans return a boolean.
pub proof fn lemma_type_prim2(op: Prim2, a: ValModel, b: ValModel, g: Seq<(Seq<char>, TVal)>)
    ensures
        ({
            let c = CompModel::Prim2(op, Box::new(a), Box::new(b));
            let num = TCompute::Returner(Box::new(TVal::Num));
            let boolean = TCompute::Returner(Box::new(TVal::Bool));
            let nums = syn_val(a, g) == Judgement::Has(TVal::Num) && syn_val(b, g) == Judgement::Has(TVal::Num);
            let bools = syn_val(a, g) == Judgement::Has(TVal::Bool) && syn_val(b, g) == Judgement::Has(TVal::Bool);
            &&& nums && (op is Add || op is Sub || op is Mul) ==> syn_comp(c, g) == Judgement::Has(num)
            &&& nums && !(op is Add || op is Sub || op is Mul || op is And || op is Or) ==> syn_comp(c, g)
                == Judgement::Has(boolean)
            &&& bools && (op is And || op is Or || op is Eq || op is Neq) ==> syn_comp(c, g) == Judgement::Has(boolean)
        }),
{
}

/// Type synthesis does not handle injections or `to`.
pub proof fn lemma_type_unsupported(d: bool, w: ValModel, x: Seq<char>, e: CompModel, body: CompModel, g: Seq<(Seq<char>, TVal)>)
    ensures
        syn_val(ValModel::Sum(d, Box::new(w)), g) is Unsupported,
        syn_comp(CompModel::To(x, Box::new(e), Box::new(body)), g) is Unsupported,
{
}

/// The model of an environment keeps its order, names and types.
pub proof fn lemma_env_view_fields(g: Seq<(&str, TVal)>)
    ensures
        env_view(g).len() == g.len(),
        forall|i: int| 0 <= i < g.len() ==> #[trigger] env_view(g)[i] == (g[i].0@, g[i].1),
{
}

/// A name with no entry in the environment is undefined.
pub proof fn lemma_lookup_absent(g: Seq<(Seq<char>, TVal)>, x: Seq<char>)
    requires
        forall|i: int| 0 <= i < g.len() ==> (#[trigger] g[i]).0 != x,
    ensures
        lookup_spec(g, x) == Judgement::<TVal>::Error(x + " is not defined"@),
    decreases g.len(),
{
    if g.len() > 0 {
        assert(g.last() == g[g.len() - 1]);
        let h = g.drop_last();
        assert forall|i: int| 0 <= i < h.len() implies (#[trigger] h[i]).0 != x by {
            assert(h[i] == g[i]);
        }
        lemma_lookup_absent(h, x);
    }
}

/// The errors of type synthesis on ill-typed constructs: a pair of which a
/// part is refused, forcing a value that is not a thunk, matching a value that
/// is not an injection or not a pair, a copattern match of which a branch is
/// refused, projecting out of a computation that is not a copattern match,
/// and pushing onto a computation that is not an arrow.
pub proof fn lemma_type_refusals(v: ValModel, w: ValModel, c: CompModel, c2: CompModel, g: Seq<(Seq<char>, TVal)>, t: TVal, tc: TCompute, x1: Seq<char>, x2: Seq<char>, m: Seq<char>)
    ensures
        syn_val(v, g) is Error && !(syn_val(w, g) is Unsupported) ==> syn_val(ValModel::Prod(Box::new(v), Box::new(w)), g)
            == Judgement::<TVal>::Error("Sum Type Error"@),
        syn_val(v, g) == Judgement::Has(t) && !(t is Thunk) ==> syn_comp(CompModel::Force(Box::new(v)), g)
            == Judgement::<TCompute>::Error("Force Type Error!"@),
        syn_val(v, g) == Judgement::Has(t) && !(t is Sum) ==> syn_comp(
            CompModel::PmSum(Box::new(v), x1, Box::new(c), x2, Box::new(c2)),
            g,
        ) == Judgement::<TCompute>::Error("PmSum Type Error"@),
        syn_val(v, g) == Judgement::Has(t) && !(t is Prod) ==> syn_comp(
            CompModel::PmPair(Box::new(v), x1, x2, Box::new(c)),
            g,
        ) == Judgement::<TCompute>::Error("PmPair Type Error"@),
        syn_comp(c, g) is Error && !(syn_comp(c2, g) is Unsupported) ==> syn_comp(
            CompModel::CoPm(Box::new(c), Box::new(c2)),
            g,
        ) == Judgement::<TCompute>::Error("CoPm Type Error"@),
        syn_comp(c, g) == Judgement::Has(tc) && !(tc is Pi) ==> syn_comp(CompModel::Proj(true, Box::new(c)), g)
            == Judgement::<TCompute>::Error("Proj Type Error"@),
        syn_val(v, g) == Judgement::Has(t) && syn_comp(c, g) == Judgement::Has(tc) && !(tc is Arrow) ==> syn_comp(
            CompModel::Push(Box::new(v), Box::new(c)),
            g,
        ) == Judgement::<TCompute>::Error("Push Type Error"@),
        syn_val(v, g) == Judgement::<TVal>::Error(m) ==> syn_comp(CompModel::Returner(Box::new(v)), g)
            == Judgement::<TCompute>::Error(m),
{
}

/// The errors of type synthesis on primitive operations: an operand that is
/// refused makes the operation refused with its message (for `!=`, with the
/// `!=` message), and operands of the wrong base types give the operator's
/// message.
pub proof fn lemma_type_prim2_refusals(op: Prim2, a: ValModel, b: ValModel, g: Seq<(Seq<char>, TVal)>, m: Seq<char>)
    ensures
        ({
            let c = CompModel::Prim2(op, Box::new(a), Box::new(b));
            let ta = syn_val(a, g);
            let tb = syn_val(b, g);
            &&& !(op is Neq) && ta == Judgement::<TVal>::Error(m) ==> syn_comp(c, g) == Judgement::<TCompute>::Error(m)
            &&& op is Neq && ta is Error && !(tb is Unsupported) ==> syn_comp(c, g) == Judgement::<TCompute>::Error(
                "Prim2 Neq Error"@,
            )
            &&& (op is Add || op is Sub || op is Mul) && ta == Judgement::Has(TVal::Bool) && tb is Has ==> syn_comp(c, g)
                == Judgement::<TCompute>::Error("Prim2 Arithmetic Type Error"@)
            &&& (op is And || op is Or) && ta == Judgement::Has(TVal::Num) && tb is Has ==> syn_comp(c, g)
                == Judgement::<TCompute>::Error("Prim2 and/or Type Error"@)
            &&& (op is Lt || op is Gt || op is Le || op is Ge) && ta == Judgement::Has(TVal::Bool) && tb is Has ==> syn_comp(c, g)
                == Judgement::<TCompute>::Error("Prim2 Compare Type Error"@)
            &&& op is Eq && ta == Judgement::Has(TVal::Bool) && tb == Judgement::Has(TVal::Num) ==> syn_comp(c, g)
                == Judgement::<TCompute>::Error("Prim2 == Type Error"@)
            &&& op is Neq && ta == Judgement::Has(TVal::Unit) && tb is Has ==> syn_comp(c, g)
                == Judgement::<TCompute>::Error("Prim2 Neq Error"@)
        }),
{
}

} // verus!
