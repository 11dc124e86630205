use vstd::prelude::*;

verus! {

/// Values of the language, each node carrying an annotation.
#[derive(Debug, PartialEq, Eq)]
pub enum ExpVal<Ann> {
    Num(i64, Ann),
    Bool(bool, Ann),
    Var(String, Ann),
    Thunk(Box<ExpCompute<Ann>>, Ann),
    /// An injection: `true` is the left summand, `false` the right one.
    Sum(bool, Box<ExpVal<Ann>>, Ann),
    Prod(Box<ExpVal<Ann>>, Box<ExpVal<Ann>>, Ann),
}

/// Computations of the language, each node carrying an annotation.
#[derive(Debug, PartialEq, Eq)]
pub enum ExpCompute<Ann> {
    Let { bindings: Vec<(String, ExpVal<Ann>)>, body: Box<ExpCompute<Ann>>, ann: Ann },
    To { binding: (String, Box<ExpCompute<Ann>>), body: Box<ExpCompute<Ann>>, ann: Ann },
    Returner(Box<ExpVal<Ann>>, Ann),
    Force(Box<ExpVal<Ann>>, Ann),
    PmSum {
        subject: Box<ExpVal<Ann>>,
        branch1: (String, Box<ExpCompute<Ann>>),
        branch2: (String, Box<ExpCompute<Ann>>),
        ann: Ann,
    },
    PmPair {
        subject: Box<ExpVal<Ann>>,
        left: String,
        right: String,
        body: Box<ExpCompute<Ann>>,
        ann: Ann,
    },
    CoPm { branch1: Box<ExpCompute<Ann>>, branch2: Box<ExpCompute<Ann>>, ann: Ann },
    Proj(bool, Box<ExpCompute<Ann>>, Ann),
    Pop(String, TVal, Box<ExpCompute<Ann>>, Ann),
    Push(Box<ExpVal<Ann>>, Box<ExpCompute<Ann>>, Ann),
    Prim2(Prim2, Box<ExpVal<Ann>>, Box<ExpVal<Ann>>, Ann),
}

/// Either a value or a computation.
#[derive(Clone, Debug, PartialEq, Eq)]
pub enum Exp<Ann> {
    ExpVal(Box<ExpVal<Ann>>),
    ExpCompute(Box<ExpCompute<Ann>>),
}

/// The forms in which evaluation can stop.
#[derive(Clone, Debug, PartialEq, Eq)]
pub enum Terminal {
    Return(Box<ExpVal<()>>),
    Pop(String, Box<ExpCompute<()>>),
    CoPm { branch1: Box<ExpCompute<()>>, branch2: Box<ExpCompute<()>> },
}

/// Closed values without annotations.
#[derive(Debug, PartialEq, Eq)]
pub enum Val {
    Num(i64),
    Bool(bool),
    Thunk(Box<ExpCompute<()>>),
    Sum(Box<Val>, Box<Val>),
    Prod(Box<Val>, Box<Val>),
}

/// Binary primitive operations.
#[derive(Copy, Clone, Debug, PartialEq, Eq)]
pub enum Prim2 {
    Add,
    Sub,
    Mul,
    And,
    Or,
    Lt,
    Gt,
    Le,
    Ge,
    Eq,
    Neq,
}

/// Value types.
#[derive(Debug, PartialEq, Eq)]
pub enum TVal {
    Unit,
    Num,
    Bool,
    Thunk(Box<TCompute>),
    Prod(Box<TVal>, Box<TVal>),
    Sum(Box<TVal>, Box<TVal>),
    Empty,
}

/// Computation types.
#[derive(Debug, PartialEq, Eq)]
pub enum TCompute {
    Returner(Box<TVal>),
    Pi(Box<TCompute>, Box<TCompute>),
    Arrow(Box<TVal>, Box<TCompute>),
}

// ---------------------------------------------------------------------
// Mathematical model: the same trees with names as character sequences
// and without annotations.
// ---------------------------------------------------------------------

pub enum ValModel {
    Num(i64),
    Bool(bool),
    Var(Seq<char>),
    Thunk(Box<CompModel>),
    Sum(bool, Box<ValModel>),
    Prod(Box<ValModel>, Box<ValModel>),
}

pub enum CompModel {
    Let(Seq<(Seq<char>, ValModel)>, Box<CompModel>),
    To(Seq<char>, Box<CompModel>, Box<CompModel>),
    Returner(Box<ValModel>),
    Force(Box<ValModel>),
    PmSum(Box<ValModel>, Seq<char>, Box<CompModel>, Seq<char>, Box<CompModel>),
    PmPair(Box<ValModel>, Seq<char>, Seq<char>, Box<CompModel>),
    CoPm(Box<CompModel>, Box<CompModel>),
    Proj(bool, Box<CompModel>),
    Pop(Seq<char>, TVal, Box<CompModel>),
    Push(Box<ValModel>, Box<CompModel>),
    Prim2(Prim2, Box<ValModel>, Box<ValModel>),
}

pub enum ValueModel {
    Num(i64),
    Bool(bool),
    Thunk(CompModel),
    Sum(Box<ValueModel>, Box<ValueModel>),
    Prod(Box<ValueModel>, Box<ValueModel>),
}

pub enum TerminalModel {
    Return(ValModel),
    Pop(Seq<char>, CompModel),
    CoPm(CompModel, CompModel),
}

pub open spec fn val_view<Ann>(e: ExpVal<Ann>) -> ValModel
    decreases e,
{
    match e {
        ExpVal::Num(n, _) => ValModel::Num(n),
        ExpVal::Bool(b, _) => ValModel::Bool(b),
        ExpVal::Var(y, _) => ValModel::Var(y@),
        ExpVal::Thunk(c, _) => ValModel::Thunk(Box::new(comp_view(*c))),
        ExpVal::Sum(d, w, _) => ValModel::Sum(d, Box::new(val_view(*w))),
        ExpVal::Prod(a, b, _) => ValModel::Prod(Box::new(val_view(*a)), Box::new(val_view(*b))),
    }
}

pub open spec fn comp_view<Ann>(e: ExpCompute<Ann>) -> CompModel
    decreases e,
{
    match e {
        ExpCompute::Let { bindings, body, ann } => CompModel::Let(
            Seq::new(
                bindings@.len(),
                |i: int|
                    {
                        proof {
                            if 0 <= i < bindings@.len() {
                                assert(decreases_to!(bindings => bindings@));
                                assert(decreases_to!(bindings@ => bindings@[i]));
                            }
                        }
                        if 0 <= i < bindings@.len() {
                            (bindings@[i].0@, val_view(bindings@[i].1))
                        } else {
                            (Seq::empty(), ValModel::Num(0))
                        }
                    },
            ),
            Box::new(comp_view(*body)),
        ),
        ExpCompute::To { binding, body, ann } => CompModel::To(
            binding.0@,
            Box::new(comp_view(*binding.1)),
            Box::new(comp_view(*body)),
        ),
        ExpCompute::Returner(v, _) => CompModel::Returner(Box::new(val_view(*v))),
        ExpCompute::Force(v, _) => CompModel::Force(Box::new(val_view(*v))),
        ExpCompute::PmSum { subject, branch1, branch2, ann } => CompModel::PmSum(
            Box::new(val_view(*subject)),
            branch1.0@,
            Box::new(comp_view(*branch1.1)),
            branch2.0@,
            Box::new(comp_view(*branch2.1)),
        ),
        ExpCompute::PmPair { subject, left, right, body, ann } => CompModel::PmPair(
            Box::new(val_view(*subject)),
            left@,
            right@,
            Box::new(comp_view(*body)),
        ),
        ExpCompute::CoPm { branch1, branch2, ann } => CompModel::CoPm(
            Box::new(comp_view(*branch1)),
            Box::new(comp_view(*branch2)),
        ),
        ExpCompute::Proj(d, c, _) => CompModel::Proj(d, Box::new(comp_view(*c))),
        ExpCompute::Pop(x, t, c, _) => CompModel::Pop(x@, t, Box::new(comp_view(*c))),
        ExpCompute::Push(v, c, _) => CompModel::Push(Box::new(val_view(*v)), Box::new(comp_view(*c))),
        ExpCompute::Prim2(op, a, b, _) => CompModel::Prim2(
            op,
            Box::new(val_view(*a)),
            Box::new(val_view(*b)),
        ),
    }
}

impl<Ann> View for ExpVal<Ann> {
    type V = ValModel;

    open spec fn view(&self) -> ValModel {
        val_view(*self)
    }
}

impl<Ann> View for ExpCompute<Ann> {
    type V = CompModel;

    open spec fn view(&self) -> CompModel {
        comp_view(*self)
    }
}

impl View for Terminal {
    type V = TerminalModel;

    open spec fn view(&self) -> TerminalModel {
        match self {
            Terminal::Return(v) => TerminalModel::Return(val_view(**v)),
            Terminal::Pop(x, c) => TerminalModel::Pop(x@, comp_view(**c)),
            Terminal::CoPm { branch1, branch2 } => TerminalModel::CoPm(
                comp_view(**branch1),
                comp_view(**branch2),
            ),
        }
    }
}

pub open spec fn value_view(v: Val) -> ValueModel
    decreases v,
{
    match v {
        Val::Num(n) => ValueModel::Num(n),
        Val::Bool(b) => ValueModel::Bool(b),
        Val::Thunk(c) => ValueModel::Thunk(comp_view(*c)),
        Val::Sum(a, b) => ValueModel::Sum(Box::new(value_view(*a)), Box::new(value_view(*b))),
        Val::Prod(a, b) => ValueModel::Prod(Box::new(value_view(*a)), Box::new(value_view(*b))),
    }
}

impl View for Val {
    type V = ValueModel;

    open spec fn view(&self) -> ValueModel {
        value_view(*self)
    }
}

/// The model of the bindings of a `let`.
pub open spec fn binds_view<Ann>(bs: Seq<(String, ExpVal<Ann>)>) -> Seq<(Seq<char>, ValModel)> {
    Seq::new(bs.len(), |i: int| (bs[i].0@, val_view(bs[i].1)))
}

/// The view of a `let` is built from the views of its bindings and body.
pub proof fn lemma_let_view<Ann>(bindings: Vec<(String, ExpVal<Ann>)>, body: Box<ExpCompute<Ann>>, ann: Ann)
    ensures
        (ExpCompute::Let { bindings, body, ann })@ == CompModel::Let(binds_view(bindings@), Box::new(body@)),
{
    let e = ExpCompute::Let { bindings, body, ann };
    let vs = match e@ {
        CompModel::Let(s, _) => s,
        _ => Seq::empty(),
    };
    assert(vs =~= binds_view(bindings@));
}

/// Each value's model keeps its constructor and its fields in place.
pub proof fn lemma_val_view_fields<Ann>(e: ExpVal<Ann>)
    ensures
        match e {
            ExpVal::Num(n, _) => e@ == ValModel::Num(n),
            ExpVal::Bool(b, _) => e@ == ValModel::Bool(b),
            ExpVal::Var(y, _) => e@ == ValModel::Var(y@),
            ExpVal::Thunk(c, _) => e@ == ValModel::Thunk(Box::new(c@)),
            ExpVal::Sum(d, w, _) => e@ == ValModel::Sum(d, Box::new(w@)),
            ExpVal::Prod(a, b, _) => e@ == ValModel::Prod(Box::new(a@), Box::new(b@)),
        },
{
}

/// Each computation's model keeps its constructor and its fields in place.
pub proof fn lemma_comp_view_fields<Ann>(e: ExpCompute<Ann>)
    ensures
        match e {
            ExpCompute::Let { bindings, body, ann } => {
                &&& e@ is Let
                &&& e@->Let_0.len() == bindings@.len()
                &&& forall|i: int| 0 <= i < bindings@.len() ==> #[trigger] e@->Let_0[i] == (bindings@[i].0@, bindings@[i].1@)
                &&& *e@->Let_1 == body@
            },
            ExpCompute::To { binding, body, ann } => e@ == CompModel::To(
                binding.0@,
                Box::new(binding.1@),
                Box::new(body@),
            ),
            ExpCompute::Returner(v, _) => e@ == CompModel::Returner(Box::new(v@)),
            ExpCompute::Force(v, _) => e@ == CompModel::Force(Box::new(v@)),
            ExpCompute::PmSum { subject, branch1, branch2, ann } => e@ == CompModel::PmSum(
                Box::new(subject@),
                branch1.0@,
                Box::new(branch1.1@),
                branch2.0@,
                Box::new(branch2.1@),
            ),
            ExpCompute::PmPair { subject, left, right, body, ann } => e@ == CompModel::PmPair(
                Box::new(subject@),
                left@,
                right@,
                Box::new(body@),
            ),
            ExpCompute::CoPm { branch1, branch2, ann } => e@ == CompModel::CoPm(
                Box::new(branch1@),
                Box::new(branch2@),
            ),
            ExpCompute::Proj(d, c, _) => e@ == CompModel::Proj(d, Box::new(c@)),
            ExpCompute::Pop(x, t, c, _) => e@ == CompModel::Pop(x@, t, Box::new(c@)),
            ExpCompute::Push(v, c, _) => e@ == CompModel::Push(Box::new(v@), Box::new(c@)),
            ExpCompute::Prim2(op, a, b, _) => e@ == CompModel::Prim2(op, Box::new(a@), Box::new(b@)),
        },
{
}

/// Each terminal form's model keeps its constructor and its fields in place.
pub proof fn lemma_terminal_view_fields(t: Terminal)
    ensures
        match t {
            Terminal::Return(v) => t@ == TerminalModel::Return(v@),
            Terminal::Pop(x, c) => t@ == TerminalModel::Pop(x@, c@),
            Terminal::CoPm { branch1, branch2 } => t@ == TerminalModel::CoPm(branch1@, branch2@),
        },
{
}

/// The model of `let` bindings keeps their order, names and values.
pub proof fn lemma_binds_view_fields<Ann>(bs: Seq<(String, ExpVal<Ann>)>)
    ensures
        binds_view(bs).len() == bs.len(),
        forall|i: int| 0 <= i < bs.len() ==> #[trigger] binds_view(bs)[i] == (bs[i].0@, bs[i].1@),
{
}

/// Each closed value's model keeps its constructor and its fields in place.
pub proof fn lemma_value_view_fields(v: Val)
    ensures
        match v {
            Val::Num(n) => v@ == ValueModel::Num(n),
            Val::Bool(b) => v@ == ValueModel::Bool(b),
            Val::Thunk(c) => v@ == ValueModel::Thunk(c@),
            Val::Sum(a, b) => v@ == ValueModel::Sum(Box::new(a@), Box::new(b@)),
            Val::Prod(a, b) => v@ == ValueModel::Prod(Box::new(a@), Box::new(b@)),
        },
{
}

// ---------------------------------------------------------------------
// Sizes, used as termination measures.
// ---------------------------------------------------------------------

pub open spec fn val_size(v: ValModel) -> nat
    decreases v,
{
    match v {
        ValModel::Thunk(c) => 1 + comp_size(*c),
        ValModel::Sum(_, w) => 1 + val_size(*w),
        ValModel::Prod(a, b) => 1 + val_size(*a) + val_size(*b),
        _ => 1,
    }
}

pub open spec fn comp_size(c: CompModel) -> nat
    decreases c,
{
    match c {
        CompModel::Let(bs, body) => 2 + binds_size(bs) + comp_size(*body),
        CompModel::To(_, e, body) => 1 + comp_size(*e) + comp_size(*body),
        CompModel::Returner(v) => 1 + val_size(*v),
        CompModel::Force(v) => 1 + val_size(*v),
        CompModel::PmSum(s, _, b1, _, b2) => 1 + val_size(*s) + comp_size(*b1) + comp_size(*b2),
        CompModel::PmPair(s, _, _, body) => 1 + val_size(*s) + comp_size(*body),
        CompModel::CoPm(b1, b2) => 1 + comp_size(*b1) + comp_size(*b2),
        CompModel::Proj(_, e) => 1 + comp_size(*e),
        CompModel::Pop(_, _, e) => 1 + comp_size(*e),
        CompModel::Push(v, e) => 1 + val_size(*v) + comp_size(*e),
        CompModel::Prim2(_, a, b) => 1 + val_size(*a) + val_size(*b),
    }
}

pub open spec fn binds_size(bs: Seq<(Seq<char>, ValModel)>) -> nat
    decreases bs,
{
    if bs.len() == 0 {
        0
    } else {
        1 + val_size(bs[0].1) + binds_size(bs.subrange(1, bs.len() as int))
    }
}

/// Every binding of a sequence is smaller than the whole sequence.
pub proof fn lemma_binding_smaller(bs: Seq<(Seq<char>, ValModel)>, i: int)
    requires
        0 <= i < bs.len(),
    ensures
        val_size(bs[i].1) < binds_size(bs),
    decreases i,
{
    if i > 0 {
        let rest = bs.subrange(1, bs.len() as int);
        lemma_binding_smaller(rest, i - 1);
        assert(rest[i - 1] == bs[i]);
    }
}

// ---------------------------------------------------------------------
// Annotations
// ---------------------------------------------------------------------

/// Every annotation of `b` is a clone of the annotation at the same place in
/// `a` (the two trees have the same shape).
pub open spec fn val_anns_cloned<Ann: Clone>(a: ExpVal<Ann>, b: ExpVal<Ann>) -> bool
    decreases a,
{
    match (a, b) {
        (ExpVal::Num(_, x), ExpVal::Num(_, y)) => cloned(x, y),
        (ExpVal::Bool(_, x), ExpVal::Bool(_, y)) => cloned(x, y),
        (ExpVal::Var(_, x), ExpVal::Var(_, y)) => cloned(x, y),
        (ExpVal::Thunk(c, x), ExpVal::Thunk(d, y)) => cloned(x, y) && comp_anns_cloned(*c, *d),
        (ExpVal::Sum(_, w, x), ExpVal::Sum(_, u, y)) => cloned(x, y) && val_anns_cloned(*w, *u),
        (ExpVal::Prod(a1, a2, x), ExpVal::Prod(b1, b2, y)) => cloned(x, y) && val_anns_cloned(*a1, *b1)
            && val_anns_cloned(*a2, *b2),
        _ => false,
    }
}

/// Every annotation of `b` is a clone of the annotation at the same place in
/// `a` (the two trees have the same shape).
pub open spec fn comp_anns_cloned<Ann: Clone>(a: ExpCompute<Ann>, b: ExpCompute<Ann>) -> bool
    decreases a,
{
    match (a, b) {
        (
            ExpCompute::Let { bindings: ba, body: ca, ann: x },
            ExpCompute::Let { bindings: bb, body: cb, ann: y },
        ) => cloned(x, y) && ba@.len() == bb@.len() && (forall|i: int|
            0 <= i < ba@.len() ==> {
                proof {
                    if 0 <= i < ba@.len() {
                        assert(decreases_to!(ba => ba@));
                        assert(decreases_to!(ba@ => ba@[i]));
                    }
                }
                if 0 <= i < ba@.len() {
                    val_anns_cloned(#[trigger] ba@[i].1, bb@[i].1)
                } else {
                    true
                }
            }) && comp_anns_cloned(*ca, *cb),
        (
            ExpCompute::To { binding: ba, body: ca, ann: x },
            ExpCompute::To { binding: bb, body: cb, ann: y },
        ) => cloned(x, y) && comp_anns_cloned(*ba.1, *bb.1) && comp_anns_cloned(*ca, *cb),
        (ExpCompute::Returner(v, x), ExpCompute::Returner(w, y)) => cloned(x, y) && val_anns_cloned(*v, *w),
        (ExpCompute::Force(v, x), ExpCompute::Force(w, y)) => cloned(x, y) && val_anns_cloned(*v, *w),
        (
            ExpCompute::PmSum { subject: sa, branch1: a1, branch2: a2, ann: x },
            ExpCompute::PmSum { subject: sb, branch1: b1, branch2: b2, ann: y },
        ) => cloned(x, y) && val_anns_cloned(*sa, *sb) && comp_anns_cloned(*a1.1, *b1.1)
            && comp_anns_cloned(*a2.1, *b2.1),
        (
            ExpCompute::PmPair { subject: sa, body: ca, ann: x, .. },
            ExpCompute::PmPair { subject: sb, body: cb, ann: y, .. },
        ) => cloned(x, y) && val_anns_cloned(*sa, *sb) && comp_anns_cloned(*ca, *cb),
        (
            ExpCompute::CoPm { branch1: a1, branch2: a2, ann: x },
            ExpCompute::CoPm { branch1: b1, branch2: b2, ann: y },
        ) => cloned(x, y) && comp_anns_cloned(*a1, *b1) && comp_anns_cloned(*a2, *b2),
        (ExpCompute::Proj(_, c, x), ExpCompute::Proj(_, d, y)) => cloned(x, y) && comp_anns_cloned(*c, *d),
        (ExpCompute::Pop(_, _, c, x), ExpCompute::Pop(_, _, d, y)) => cloned(x, y) && comp_anns_cloned(*c, *d),
        (ExpCompute::Push(v, c, x), ExpCompute::Push(w, d, y)) => cloned(x, y) && val_anns_cloned(*v, *w)
            && comp_anns_cloned(*c, *d),
        (ExpCompute::Prim2(_, a1, a2, x), ExpCompute::Prim2(_, b1, b2, y)) => cloned(x, y)
            && val_anns_cloned(*a1, *b1) && val_anns_cloned(*a2, *b2),
        _ => false,
    }
}

// ---------------------------------------------------------------------
// Copies that keep the view.
// ---------------------------------------------------------------------

/// A copy of a value: same tree, same names, annotations cloned.
pub fn copy_val<Ann: Clone>(e: &ExpVal<Ann>) -> (r: ExpVal<Ann>)
    ensures
        r@ == e@,
        val_anns_cloned(*e, r),
    decreases val_size(e@),
{
    match e {
        ExpVal::Num(n, a) => ExpVal::Num(*n, a.clone()),
        ExpVal::Bool(b, a) => ExpVal::Bool(*b, a.clone()),
        ExpVal::Var(y, a) => ExpVal::Var(y.clone(), a.clone()),
        ExpVal::Thunk(c, a) => ExpVal::Thunk(Box::new(copy_comp(c)), a.clone()),
        ExpVal::Sum(d, w, a) => ExpVal::Sum(*d, Box::new(copy_val(w)), a.clone()),
        ExpVal::Prod(l, r, a) => ExpVal::Prod(Box::new(copy_val(l)), Box::new(copy_val(r)), a.clone()),
    }
}

/// A copy of a computation: same tree, same names, annotations cloned.
#[verifier::loop_isolation(false)]
pub fn copy_comp<Ann: Clone>(e: &ExpCompute<Ann>) -> (r: ExpCompute<Ann>)
    ensures
        r@ == e@,
        comp_anns_cloned(*e, r),
    decreases comp_size(e@),
{
    match e {
        ExpCompute::Let { bindings, body, ann } => {
            let ghost vs = match e@ {
                CompModel::Let(s, _) => s,
                _ => Seq::empty(),
            };
            assert(vs.len() == bindings@.len());
            assert(forall|j: int|
                0 <= j < vs.len() ==> #[trigger] vs[j] == (bindings@[j].0@, bindings@[j].1@));
            let mut nb: Vec<(String, ExpVal<Ann>)> = Vec::new();
            let mut i: usize = 0;
            while i < bindings.len()
                invariant
                    i <= bindings@.len(),
                    nb@.len() == i,
                    forall|j: int|
                        0 <= j < i ==> #[trigger] nb@[j].0@ == bindings@[j].0@ && nb@[j].1@
                            == bindings@[j].1@ && val_anns_cloned(bindings@[j].1, nb@[j].1),
                decreases bindings@.len() - i,
            {
                proof {
                    lemma_binding_smaller(vs, i as int);
                }
                let y = bindings[i].0.clone();
                let w = copy_val(&bindings[i].1);
                nb.push((y, w));
                i = i + 1;
            }
            let ghost nbv = nb@;
            let r = ExpCompute::Let { bindings: nb, body: Box::new(copy_comp(body)), ann: ann.clone() };
            assert forall|j: int| 0 <= j < bindings@.len() implies val_anns_cloned(
                #[trigger] bindings@[j].1,
                nbv[j].1,
            ) by {
                assert(nbv[j].0@ == bindings@[j].0@);
            }
            assert(r@ == e@) by {
                let rs = match r@ {
                    CompModel::Let(s, _) => s,
                    _ => Seq::empty(),
                };
                assert(rs =~= vs);
            }
            r
        },
        ExpCompute::To { binding, body, ann } => ExpCompute::To {
            binding: (binding.0.clone(), Box::new(copy_comp(&binding.1))),
            body: Box::new(copy_comp(body)),
            ann: ann.clone(),
        },
        ExpCompute::Returner(v, a) => ExpCompute::Returner(Box::new(copy_val(v)), a.clone()),
        ExpCompute::Force(v, a) => ExpCompute::Force(Box::new(copy_val(v)), a.clone()),
        ExpCompute::PmSum { subject, branch1, branch2, ann } => ExpCompute::PmSum {
            subject: Box::new(copy_val(subject)),
            branch1: (branch1.0.clone(), Box::new(copy_comp(&branch1.1))),
            branch2: (branch2.0.clone(), Box::new(copy_comp(&branch2.1))),
            ann: ann.clone(),
        },
        ExpCompute::PmPair { subject, left, right, body, ann } => ExpCompute::PmPair {
            subject: Box::new(copy_val(subject)),
            left: left.clone(),
            right: right.clone(),
            body: Box::new(copy_comp(body)),
            ann: ann.clone(),
        },
        ExpCompute::CoPm { branch1, branch2, ann } => ExpCompute::CoPm {
            branch1: Box::new(copy_comp(branch1)),
            branch2: Box::new(copy_comp(branch2)),
            ann: ann.clone(),
        },
        ExpCompute::Proj(d, c, a) => ExpCompute::Proj(*d, Box::new(copy_comp(c)), a.clone()),
        ExpCompute::Pop(x, t, c, a) => ExpCompute::Pop(x.clone(), copy_tval(t), Box::new(copy_comp(c)), a.clone()),
        ExpCompute::Push(v, c, a) => ExpCompute::Push(Box::new(copy_val(v)), Box::new(copy_comp(c)), a.clone()),
        ExpCompute::Prim2(op, l, r, a) => ExpCompute::Prim2(*op, Box::new(copy_val(l)), Box::new(copy_val(r)), a.clone()),
    }
}

impl<Ann: Clone> Clone for ExpVal<Ann> {
    fn clone(&self) -> (r: Self)
        ensures
            r@ == self@,
            val_anns_cloned(*self, r),
    {
        copy_val(self)
    }
}

impl<Ann: Clone> Clone for ExpCompute<Ann> {
    fn clone(&self) -> (r: Self)
        ensures
            r@ == self@,
            comp_anns_cloned(*self, r),
    {
        copy_comp(self)
    }
}

/// A copy of a closed value.
pub fn copy_value(v: &Val) -> (r: Val)
    ensures
        r@ == v@,
    decreases v,
{
    match v {
        Val::Num(n) => Val::Num(*n),
        Val::Bool(b) => Val::Bool(*b),
        Val::Thunk(c) => Val::Thunk(Box::new(copy_comp(c))),
        Val::Sum(a, b) => Val::Sum(Box::new(copy_value(a)), Box::new(copy_value(b))),
        Val::Prod(a, b) => Val::Prod(Box::new(copy_value(a)), Box::new(copy_value(b))),
    }
}

impl Clone for Val {
    fn clone(&self) -> (r: Self)
        ensures
            r@ == self@,
    {
        copy_value(self)
    }
}

impl Clone for TVal {
    fn clone(&self) -> (r: Self)
        ensures
            r == *self,
    {
        copy_tval(self)
    }
}

impl Clone for TCompute {
    fn clone(&self) -> (r: Self)
        ensures
            r == *self,
    {
        copy_tcompute(self)
    }
}

/// A copy of a value type.
pub fn copy_tval(t: &TVal) -> (r: TVal)
    ensures
        r == *t,
    decreases t,
{
    match t {
        TVal::Unit => TVal::Unit,
        TVal::Num => TVal::Num,
        TVal::Bool => TVal::Bool,
        TVal::Thunk(c) => TVal::Thunk(Box::new(copy_tcompute(c))),
        TVal::Prod(a, b) => TVal::Prod(Box::new(copy_tval(a)), Box::new(copy_tval(b))),
        TVal::Sum(a, b) => TVal::Sum(Box::new(copy_tval(a)), Box::new(copy_tval(b))),
        TVal::Empty => TVal::Empty,
    }
}

/// A copy of a computation type.
pub fn copy_tcompute(t: &TCompute) -> (r: TCompute)
    ensures
        r == *t,
    decreases t,
{
    match t {
        TCompute::Returner(v) => TCompute::Returner(Box::new(copy_tval(v))),
        TCompute::Pi(a, b) => TCompute::Pi(Box::new(copy_tcompute(a)), Box::new(copy_tcompute(b))),
        TCompute::Arrow(a, b) => TCompute::Arrow(Box::new(copy_tval(a)), Box::new(copy_tcompute(b))),
    }
}

/// Structural equality of value types.
pub fn tval_eq(a: &TVal, b: &TVal) -> (r: bool)
    ensures
        r == (*a == *b),
    decreases a,
{
    match (a, b) {
        (TVal::Unit, TVal::Unit) => true,
        (TVal::Num, TVal::Num) => true,
        (TVal::Bool, TVal::Bool) => true,
        (TVal::Empty, TVal::Empty) => true,
        (TVal::Thunk(x), TVal::Thunk(y)) => tcompute_eq(x, y),
        (TVal::Prod(x1, x2), TVal::Prod(y1, y2)) => tval_eq(x1, y1) && tval_eq(x2, y2),
        (TVal::Sum(x1, x2), TVal::Sum(y1, y2)) => tval_eq(x1, y1) && tval_eq(x2, y2),
        _ => false,
    }
}

/// Structural equality of computation types.
pub fn tcompute_eq(a: &TCompute, b: &TCompute) -> (r: bool)
    ensures
        r == (*a == *b),
    decreases a,
{
    match (a, b) {
        (TCompute::Returner(x), TCompute::Returner(y)) => tval_eq(x, y),
        (TCompute::Pi(x1, x2), TCompute::Pi(y1, y2)) => tcompute_eq(x1, y1) && tcompute_eq(x2, y2),
        (TCompute::Arrow(x1, x2), TCompute::Arrow(y1, y2)) => tval_eq(x1, y1) && tcompute_eq(x2, y2),
        _ => false,
    }
}

} // verus!
