use vstd::prelude::*;
use crate::syntax::{CompModel, Prim2, TVal, TerminalModel, ValModel};
use crate::semantics::{
    msg_push, msg_stack_copm, msg_stack_pop, msg_stack_return, msg_to, run, run_machine, step, subst_all, subst_comp, subst_val, Outcome,
    StackModel, Step,
};
use crate::typeSyn::{lookup_spec, Judgement};

verus! {

// ---------------------------------------------------------------------
// Fuel
// ---------------------------------------------------------------------

/// Big-step evaluation does not depend on the fuel, once the fuel suffices:
/// more fuel gives the same outcome.
pub proof fn lemma_run_fuel_monotone(c: CompModel, f1: nat, f2: nat)
    requires
        f1 <= f2,
        !(run(c, f1) is OutOfFuel),
    ensures
        run(c, f2) == run(c, f1),
    decreases f1,
{
    let g1 = (f1 - 1) as nat;
    let g2 = (f2 - 1) as nat;
    match c {
        CompModel::Let(bs, body) => {
            lemma_run_fuel_monotone(subst_all(*body, bs), g1, g2);
        },
        CompModel::To(x, e, body) => {
            lemma_run_fuel_monotone(*e, g1, g2);
            if let Outcome::Done(TerminalModel::Return(v)) = run(*e, g1) {
                lemma_run_fuel_monotone(subst_comp(*body, x, v), g1, g2);
            }
        },
        CompModel::Force(v) => {
            if let ValModel::Thunk(u) = *v {
                lemma_run_fuel_monotone(*u, g1, g2);
            }
        },
        CompModel::PmSum(s, x1, b1, x2, b2) => {
            if let ValModel::Sum(d, w) = *s {
                if d {
                    lemma_run_fuel_monotone(subst_comp(*b1, x1, *w), g1, g2);
                } else {
                    lemma_run_fuel_monotone(subst_comp(*b2, x2, *w), g1, g2);
                }
            }
        },
        CompModel::PmPair(s, l, r, body) => {
            if let ValModel::Prod(a, b) = *s {
                lemma_run_fuel_monotone(subst_comp(subst_comp(*body, l, *a), r, *b), g1, g2);
            }
        },
        CompModel::Proj(d, e) => {
            if let CompModel::CoPm(b1, b2) = *e {
                if d {
                    lemma_run_fuel_monotone(*b1, g1, g2);
                } else {
                    lemma_run_fuel_monotone(*b2, g1, g2);
                }
            }
        },
        CompModel::Push(v, e) => {
            lemma_run_fuel_monotone(*e, g1, g2);
            if let Outcome::Done(TerminalModel::Pop(x, b)) = run(*e, g1) {
                lemma_run_fuel_monotone(subst_comp(b, x, *v), g1, g2);
            }
        },
        _ => {},
    }
}

/// The stack machine's outcome does not depend on the fuel, once the fuel
/// suffices: more fuel gives the same outcome.
pub proof fn lemma_machine_fuel_monotone(c: CompModel, k: StackModel, f1: nat, f2: nat)
    requires
        f1 <= f2,
        !(run_machine(c, k, f1) is OutOfFuel),
    ensures
        run_machine(c, k, f2) == run_machine(c, k, f1),
    decreases f1,
{
    if let Step::Next(c2, k2) = step(c, k) {
        lemma_machine_fuel_monotone(c2, k2, (f1 - 1) as nat, (f2 - 1) as nat);
    }
}

// ---------------------------------------------------------------------
// The stack machine computes what big-step evaluation computes
// ---------------------------------------------------------------------

/// The state after `n` transitions of the machine, or how it stopped before.
pub open spec fn steps(c: CompModel, k: StackModel, n: nat) -> Step
    decreases n,
{
    if n == 0 {
        Step::Next(c, k)
    } else {
        match step(c, k) {
            Step::Next(c2, k2) => steps(c2, k2, (n - 1) as nat),
            other => other,
        }
    }
}

/// The terminal form that a computation stands for, if it is one.
pub open spec fn terminal_of(c: CompModel) -> Option<TerminalModel> {
    match c {
        CompModel::Returner(v) => Some(TerminalModel::Return(*v)),
        CompModel::Pop(x, _, e) => Some(TerminalModel::Pop(x, *e)),
        CompModel::CoPm(b1, b2) => Some(TerminalModel::CoPm(*b1, *b2)),
        _ => None,
    }
}

proof fn lemma_steps_compose(c: CompModel, k: StackModel, n1: nat, n2: nat)
    requires
        steps(c, k, n1) is Next,
    ensures
        steps(c, k, n1 + n2) == steps(steps(c, k, n1)->Next_0, steps(c, k, n1)->Next_1, n2),
    decreases n1,
{
    if n1 > 0 {
        if let Step::Next(c2, k2) = step(c, k) {
            lemma_steps_compose(c2, k2, (n1 - 1) as nat, n2);
            assert((n1 + n2 - 1) as nat == ((n1 - 1) as nat + n2));
        }
    }
}

proof fn lemma_steps_run(c: CompModel, k: StackModel, n: nat, m: nat)
    requires
        steps(c, k, n) is Next,
    ensures
        run_machine(c, k, n + m) == run_machine(steps(c, k, n)->Next_0, steps(c, k, n)->Next_1, m),
    decreases n,
{
    if n > 0 {
        if let Step::Next(c2, k2) = step(c, k) {
            lemma_steps_run(c2, k2, (n - 1) as nat, m);
            assert((n + m - 1) as nat == ((n - 1) as nat + m));
        }
    }
}

/// Where big-step evaluation stops at `t`, the machine, on any stack, reaches a
/// computation that stands for `t`, with the same stack.
proof fn lemma_machine_reaches(c: CompModel, f: nat, k: StackModel) -> (res: (nat, CompModel))
    requires
        run(c, f) is Done,
    ensures
        steps(c, k, res.0) == Step::Next(res.1, k),
        terminal_of(res.1) == Some(run(c, f)->Done_0),
    decreases f,
{
    let g = (f - 1) as nat;
    match c {
        CompModel::Let(bs, body) => {
            let c2 = subst_all(*body, bs);
            let (n, r) = lemma_machine_reaches(c2, g, k);
            (n + 1, r)
        },
        CompModel::To(x, e, body) => {
            let k1 = StackModel::Cont(x, *body, Box::new(k));
            let (n1, c1) = lemma_machine_reaches(*e, g, k1);
            let v = run(*e, g)->Done_0->Return_0;
            assert(c1 == CompModel::Returner(Box::new(v)));
            let c2 = subst_comp(*body, x, v);
            let (n2, r) = lemma_machine_reaches(c2, g, k);
            assert(steps(c1, k1, 1 + n2) == steps(c2, k, n2));
            lemma_steps_compose(*e, k1, n1, 1 + n2);
            assert(steps(c, k, 1 + (n1 + (1 + n2))) == steps(*e, k1, n1 + (1 + n2)));
            (1 + (n1 + (1 + n2)), r)
        },
        CompModel::Returner(v) => (0, c),
        CompModel::Force(v) => {
            let u = v->Thunk_0;
            let (n, r) = lemma_machine_reaches(*u, g, k);
            (n + 1, r)
        },
        CompModel::PmSum(s, x1, b1, x2, b2) => {
            let d = s->Sum_0;
            let w = s->Sum_1;
            let c2 = if d {
                subst_comp(*b1, x1, *w)
            } else {
                subst_comp(*b2, x2, *w)
            };
            let (n, r) = lemma_machine_reaches(c2, g, k);
            (n + 1, r)
        },
        CompModel::PmPair(s, l, r, body) => {
            let a = s->Prod_0;
            let b = s->Prod_1;
            let c2 = subst_comp(subst_comp(*body, l, *a), r, *b);
            let (n, res) = lemma_machine_reaches(c2, g, k);
            (n + 1, res)
        },
        CompModel::CoPm(b1, b2) => (0, c),
        CompModel::Proj(d, e) => {
            let b1 = e->CoPm_0;
            let b2 = e->CoPm_1;
            let k1 = StackModel::Prj(d, Box::new(k));
            let c2 = if d {
                *b1
            } else {
                *b2
            };
            let (n, r) = lemma_machine_reaches(c2, g, k);
            assert(steps(c, k, 2 + n) == steps(*e, k1, 1 + n));
            (2 + n, r)
        },
        CompModel::Pop(x, t, e) => (0, c),
        CompModel::Push(v, e) => {
            let k1 = StackModel::Arg(*v, Box::new(k));
            let (n1, c1) = lemma_machine_reaches(*e, g, k1);
            let x = run(*e, g)->Done_0->Pop_0;
            let b = run(*e, g)->Done_0->Pop_1;
            let c2 = subst_comp(b, x, *v);
            let (n2, r) = lemma_machine_reaches(c2, g, k);
            assert(steps(c1, k1, 1 + n2) == steps(c2, k, n2));
            lemma_steps_compose(*e, k1, n1, 1 + n2);
            assert(steps(c, k, 1 + (n1 + (1 + n2))) == steps(*e, k1, n1 + (1 + n2)));
            (1 + (n1 + (1 + n2)), r)
        },
        CompModel::Prim2(op, a, b) => {
            let r = CompModel::Returner(Box::new(run(c, f)->Done_0->Return_0));
            assert(steps(c, k, 1) == steps(r, k, 0));
            (1, r)
        },
    }
}

/// From `n` steps on, the machine started on an empty stack gives `o`.
pub open spec fn machine_settles(c: CompModel, o: Outcome, n: nat) -> bool {
    forall|m: nat| n <= m ==> #[trigger] run_machine(c, StackModel::End, m) == o
}

/// Whenever big-step evaluation stops at a terminal form, the stack machine,
/// started on an empty stack and given enough steps, stops at the same
/// terminal form, and keeps giving it for any larger number of steps.
pub proof fn lemma_machine_agrees_with_eval(c: CompModel, f: nat)
    requires
        run(c, f) is Done,
    ensures
        exists|n: nat| #[trigger] machine_settles(c, run(c, f), n),
{
    let (n, r) = lemma_machine_reaches(c, f, StackModel::End);
    lemma_steps_run(c, StackModel::End, n, 1);
    assert(run_machine(c, StackModel::End, n + 1) == run(c, f));
    assert forall|m: nat| n + 1 <= m implies #[trigger] run_machine(c, StackModel::End, m) == run(c, f) by {
        lemma_machine_fuel_monotone(c, StackModel::End, n + 1, m);
    }
    assert(machine_settles(c, run(c, f), n + 1));
}

// ---------------------------------------------------------------------
// Big-step evaluation of `to` and `push` through their parts
// ---------------------------------------------------------------------

/// `c` evaluates to the outcome `o` given enough fuel.
pub open spec fn evaluates(c: CompModel, o: Outcome) -> bool {
    !(o is OutOfFuel) && exists|f: nat| #[trigger] run(c, f) == o
}

/// Two runs of the same computation that both finish agree.
proof fn lemma_run_functional(c: CompModel, f1: nat, f2: nat)
    requires
        !(run(c, f1) is OutOfFuel),
        !(run(c, f2) is OutOfFuel),
    ensures
        run(c, f1) == run(c, f2),
{
    if f1 <= f2 {
        lemma_run_fuel_monotone(c, f1, f2);
    } else {
        lemma_run_fuel_monotone(c, f2, f1);
    }
}

proof fn lemma_evaluates_functional(c: CompModel, o1: Outcome, o2: Outcome)
    requires
        evaluates(c, o1),
        evaluates(c, o2),
    ensures
        o1 == o2,
{
    let f1 = choose|f: nat| run(c, f) == o1;
    let f2 = choose|f: nat| run(c, f) == o2;
    lemma_run_functional(c, f1, f2);
}

/// The big-step outcome of a computation that first evaluates `e` and, where
/// `e` stops at `t`, goes on with `next(t)`: `outer` is such a computation
/// when every run of it with fuel `f + 1` is the run of `e` with fuel `f`
/// followed by the continuation.
proof fn lemma_evaluates_sequence(outer: CompModel, e: CompModel, o: Outcome, good: TerminalModel, c2: CompModel)
    requires
        evaluates(e, o),
        forall|f: nat| #[trigger] run(outer, f + 1) == match run(e, f) {
            Outcome::Done(t) => if t == good {
                run(c2, f)
            } else {
                run(outer, f + 1)
            },
            other => other,
        },
        run(outer, 0) is OutOfFuel,
    ensures
        o == Outcome::Done(good) ==> forall|p: Outcome| #[trigger] evaluates(outer, p) <==> evaluates(c2, p),
        !(o is Done) ==> evaluates(outer, o),
{
    let fe = choose|f: nat| run(e, f) == o;
    if o == Outcome::Done(good) {
        assert forall|p: Outcome| #[trigger] evaluates(outer, p) <==> evaluates(c2, p) by {
            if evaluates(c2, p) {
                let fc = choose|f: nat| run(c2, f) == p;
                let f = if fe <= fc {
                    fc
                } else {
                    fe
                };
                lemma_run_fuel_monotone(e, fe, f);
                lemma_run_fuel_monotone(c2, fc, f);
                assert(run(outer, f + 1) == p);
            }
            if evaluates(outer, p) {
                let fo = choose|f: nat| run(outer, f) == p;
                let g = (fo - 1) as nat;
                assert(run(outer, g + 1) == p);
                lemma_run_functional(e, g, fe);
                assert(run(c2, g) == p);
            }
        }
    } else if !(o is Done) {
        assert(run(outer, fe + 1) == o);
    }
}

/// Evaluating `to x. e; body` evaluates `e` first: where `e` returns a value
/// `v`, the outcome is exactly that of `body` with `v` for `x`; where `e` stops
/// otherwise, it fails with the `to` error; where `e` fails, it fails alike.
pub proof fn lemma_evaluates_to(x: Seq<char>, e: CompModel, body: CompModel, o: Outcome)
    requires
        evaluates(e, o),
    ensures
        ({
            let c = CompModel::To(x, Box::new(e), Box::new(body));
            match o {
                Outcome::Done(TerminalModel::Return(v)) => forall|p: Outcome|
                    #[trigger] evaluates(c, p) <==> evaluates(subst_comp(body, x, v), p),
                Outcome::Done(_) => evaluates(c, Outcome::Fail(msg_to())),
                _ => evaluates(c, o),
            }
        }),
{
    let c = CompModel::To(x, Box::new(e), Box::new(body));
    let fe = choose|f: nat| run(e, f) == o;
    match o {
        Outcome::Done(TerminalModel::Return(v)) => {
            lemma_evaluates_sequence(c, e, o, TerminalModel::Return(v), subst_comp(body, x, v));
        },
        Outcome::Done(t) => {
            assert(run(c, fe + 1) == Outcome::Fail(msg_to()));
        },
        _ => {
            assert(run(c, fe + 1) == o);
        },
    }
}

/// Evaluating `push v; e` evaluates `e` first: where `e` stops at `pop x. b`,
/// the outcome is exactly that of `b` with `v` for `x`; where `e` stops
/// otherwise, it fails with the `push` error; where `e` fails, it fails alike.
pub proof fn lemma_evaluates_push(v: ValModel, e: CompModel, o: Outcome)
    requires
        evaluates(e, o),
    ensures
        ({
            let c = CompModel::Push(Box::new(v), Box::new(e));
            match o {
                Outcome::Done(TerminalModel::Pop(x, b)) => forall|p: Outcome|
                    #[trigger] evaluates(c, p) <==> evaluates(subst_comp(b, x, v), p),
                Outcome::Done(_) => evaluates(c, Outcome::Fail(msg_push())),
                _ => evaluates(c, o),
            }
        }),
{
    let c = CompModel::Push(Box::new(v), Box::new(e));
    let fe = choose|f: nat| run(e, f) == o;
    match o {
        Outcome::Done(TerminalModel::Pop(x, b)) => {
            lemma_evaluates_sequence(c, e, o, TerminalModel::Pop(x, b), subst_comp(b, x, v));
        },
        Outcome::Done(t) => {
            assert(run(c, fe + 1) == Outcome::Fail(msg_push()));
        },
        _ => {
            assert(run(c, fe + 1) == o);
        },
    }
}

// ---------------------------------------------------------------------
// The stack machine under a pending frame
// ---------------------------------------------------------------------

/// The stack machine started on `c` with an empty stack gives `o`.
pub open spec fn machine_gives(c: CompModel, o: Outcome) -> bool {
    !(o is OutOfFuel) && exists|n: nat| #[trigger] run_machine(c, StackModel::End, n) == o
}

/// `k1` with `k2` below its bottom.
pub open spec fn stack_append(k1: StackModel, k2: StackModel) -> StackModel
    decreases k1,
{
    match k1 {
        StackModel::Arg(v, s) => StackModel::Arg(v, Box::new(stack_append(*s, k2))),
        StackModel::Prj(d, s) => StackModel::Prj(d, Box::new(stack_append(*s, k2))),
        StackModel::Cont(x, e, s) => StackModel::Cont(x, e, Box::new(stack_append(*s, k2))),
        StackModel::End => k2,
    }
}

/// A computation standing for a terminal form, as the machine meets it.
pub open spec fn terminal_comp(t: TerminalModel) -> CompModel {
    match t {
        TerminalModel::Return(v) => CompModel::Returner(Box::new(v)),
        TerminalModel::Pop(x, e) => CompModel::Pop(x, TVal::Unit, Box::new(e)),
        TerminalModel::CoPm(b1, b2) => CompModel::CoPm(Box::new(b1), Box::new(b2)),
    }
}

proof fn lemma_steps_prefix(c: CompModel, k: StackModel, a: nat, b: nat)
    requires
        steps(c, k, a + b) is Next,
    ensures
        steps(c, k, a) is Next,
    decreases a,
{
    if a > 0 {
        if let Step::Next(c2, k2) = step(c, k) {
            assert((a + b - 1) as nat == ((a - 1) as nat + b));
            lemma_steps_prefix(c2, k2, (a - 1) as nat, b);
        }
    }
}

/// A machine run on `k1` is the same run on `k1` with `k2` below it, until it
/// stops: where it halts, the larger stack reaches the terminal computation with
/// `k2` left; where it fails, it fails alike.
proof fn lemma_run_under(c: CompModel, k1: StackModel, k2: StackModel, n: nat) -> (res: (nat, CompModel))
    requires
        !(run_machine(c, k1, n) is OutOfFuel),
    ensures
        run_machine(c, k1, n) is Done ==> {
            &&& steps(c, stack_append(k1, k2), res.0) == Step::Next(res.1, k2)
            &&& terminal_of(res.1) == Some(run_machine(c, k1, n)->Done_0)
        },
        !(run_machine(c, k1, n) is Done) ==> run_machine(c, stack_append(k1, k2), n) == run_machine(c, k1, n),
    decreases n,
{
    match step(c, k1) {
        Step::Next(c2, k3) => {
            assert(step(c, stack_append(k1, k2)) == Step::Next(c2, stack_append(k3, k2)));
            let (j, r) = lemma_run_under(c2, k3, k2, (n - 1) as nat);
            (j + 1, r)
        },
        Step::Halt(t) => {
            assert(k1 == StackModel::End);
            (0, c)
        },
        _ => {
            assert(step(c, stack_append(k1, k2)) == step(c, k1));
            (0, c)
        },
    }
}

/// Where `outer` takes one step to `m` under the one-frame stack `k`, its
/// outcome is that of `m` where `m` fails, and where `m` stops at a terminal
/// form, it is what that form makes of the frame.
proof fn lemma_machine_frame(outer: CompModel, m: CompModel, k: StackModel, o: Outcome)
    requires
        step(outer, StackModel::End) == Step::Next(m, k),
        !(k is End),
        machine_gives(m, o),
    ensures
        !(o is Done) ==> machine_gives(outer, o),
        o is Done ==> match step(terminal_comp(o->Done_0), k) {
            Step::Next(c2, k2) => k2 == StackModel::End ==> forall|p: Outcome|
                #[trigger] machine_gives(outer, p) <==> machine_gives(c2, p),
            Step::Fail(msg) => machine_gives(outer, Outcome::Fail(msg)),
            _ => true,
        },
{
    let n1 = choose|n: nat| run_machine(m, StackModel::End, n) == o;
    assert(stack_append(StackModel::End, k) == k);
    let (j, ct) = lemma_run_under(m, StackModel::End, k, n1);
    if o is Done {
        let t = o->Done_0;
        assert(step(ct, k) == step(terminal_comp(t), k));
        assert(steps(m, k, 0) == Step::Next(m, k));
        assert(steps(outer, StackModel::End, 1) == Step::Next(m, k));
        lemma_steps_compose(outer, StackModel::End, 1, j);
        assert(steps(outer, StackModel::End, 1 + j) == Step::Next(ct, k));
        match step(ct, k) {
            Step::Next(c2, k2) => {
                if k2 == StackModel::End {
                    assert(steps(c2, k2, 0) == Step::Next(c2, k2));
                    assert(steps(ct, k, 1) == Step::Next(c2, k2));
                    lemma_steps_compose(outer, StackModel::End, 1 + j, 1);
                    let total = 1 + j + 1;
                    assert(steps(outer, StackModel::End, total) == Step::Next(c2, StackModel::End));
                    assert forall|p: Outcome| #[trigger] machine_gives(outer, p) <==> machine_gives(c2, p) by {
                        if machine_gives(c2, p) {
                            let n2 = choose|n: nat| run_machine(c2, StackModel::End, n) == p;
                            lemma_steps_run(outer, StackModel::End, total, n2);
                            assert(run_machine(outer, StackModel::End, total + n2) == p);
                        }
                        if machine_gives(outer, p) {
                            let no = choose|n: nat| run_machine(outer, StackModel::End, n) == p;
                            if no < total {
                                lemma_steps_prefix(outer, StackModel::End, no, (total - no) as nat);
                                lemma_steps_run(outer, StackModel::End, no, 0);
                            } else {
                                lemma_steps_run(outer, StackModel::End, total, (no - total) as nat);
                                assert(run_machine(c2, StackModel::End, (no - total) as nat) == p);
                            }
                        }
                    }
                }
            },
            Step::Fail(msg) => {
                lemma_steps_run(outer, StackModel::End, 1 + j, 1);
                assert(run_machine(outer, StackModel::End, 1 + j + 1) == Outcome::Fail(msg));
            },
            _ => {},
        }
    } else {
        assert(run_machine(outer, StackModel::End, n1 + 1) == run_machine(m, k, n1));
    }
}

/// The machine on `to x. m; body`: where `m` returns a value `w`, the outcome
/// is exactly that of `body` with `w` for `x`; where `m` stops at a copattern
/// match or a `pop`, the pending `to` frame makes it fail; where `m` fails, it
/// fails alike.
pub proof fn lemma_machine_to(x: Seq<char>, m: CompModel, body: CompModel, o: Outcome)
    requires
        machine_gives(m, o),
    ensures
        ({
            let c = CompModel::To(x, Box::new(m), Box::new(body));
            match o {
                Outcome::Done(TerminalModel::Return(w)) => forall|p: Outcome|
                    #[trigger] machine_gives(c, p) <==> machine_gives(subst_comp(body, x, w), p),
                Outcome::Done(TerminalModel::CoPm(_, _)) => machine_gives(c, Outcome::Fail(msg_stack_copm())),
                Outcome::Done(TerminalModel::Pop(_, _)) => machine_gives(c, Outcome::Fail(msg_stack_pop())),
                _ => machine_gives(c, o),
            }
        }),
{
    let c = CompModel::To(x, Box::new(m), Box::new(body));
    lemma_machine_frame(c, m, StackModel::Cont(x, body, Box::new(StackModel::End)), o);
}

/// The machine on the projection `prj d m` of any computation `m`: where `m`
/// stops at a copattern match, the outcome is exactly that of the chosen
/// branch; where it stops at a returned value or a `pop`, the pending
/// projection makes it fail; where `m` fails, it fails alike.
pub proof fn lemma_machine_proj(d: bool, m: CompModel, o: Outcome)
    requires
        machine_gives(m, o),
    ensures
        ({
            let c = CompModel::Proj(d, Box::new(m));
            match o {
                Outcome::Done(TerminalModel::CoPm(b1, b2)) => forall|p: Outcome|
                    #[trigger] machine_gives(c, p) <==> machine_gives(if d { b1 } else { b2 }, p),
                Outcome::Done(TerminalModel::Return(_)) => machine_gives(c, Outcome::Fail(msg_stack_return())),
                Outcome::Done(TerminalModel::Pop(_, _)) => machine_gives(c, Outcome::Fail(msg_stack_pop())),
                _ => machine_gives(c, o),
            }
        }),
{
    let c = CompModel::Proj(d, Box::new(m));
    lemma_machine_frame(c, m, StackModel::Prj(d, Box::new(StackModel::End)), o);
}

/// The machine on `push w; m`: where `m` stops at `pop x. b`, the outcome is
/// exactly that of `b` with `w` for `x`; where it stops at a returned value or
/// a copattern match, the pending argument makes it fail; where `m` fails, it
/// fails alike.
pub proof fn lemma_machine_push(w: ValModel, m: CompModel, o: Outcome)
    requires
        machine_gives(m, o),
    ensures
        ({
            let c = CompModel::Push(Box::new(w), Box::new(m));
            match o {
                Outcome::Done(TerminalModel::Pop(x, b)) => forall|p: Outcome|
                    #[trigger] machine_gives(c, p) <==> machine_gives(subst_comp(b, x, w), p),
                Outcome::Done(TerminalModel::Return(_)) => machine_gives(c, Outcome::Fail(msg_stack_return())),
                Outcome::Done(TerminalModel::CoPm(_, _)) => machine_gives(c, Outcome::Fail(msg_stack_copm())),
                _ => machine_gives(c, o),
            }
        }),
{
    let c = CompModel::Push(Box::new(w), Box::new(m));
    lemma_machine_frame(c, m, StackModel::Arg(w, Box::new(StackModel::End)), o);
}

// ---------------------------------------------------------------------
// Substitution
// ---------------------------------------------------------------------

/// Whether the variable `x` occurs anywhere in the value `e`.
pub open spec fn val_mentions(e: ValModel, x: Seq<char>) -> bool
    decreases e,
{
    match e {
        ValModel::Var(y) => y == x,
        ValModel::Thunk(c) => comp_mentions(*c, x),
        ValModel::Sum(_, w) => val_mentions(*w, x),
        ValModel::Prod(a, b) => val_mentions(*a, x) || val_mentions(*b, x),
        _ => false,
    }
}

/// Whether the variable `x` occurs anywhere in the computation `e`.
pub open spec fn comp_mentions(e: CompModel, x: Seq<char>) -> bool
    decreases e,
{
    match e {
        CompModel::Let(bs, body) => (exists|i: int|
            0 <= i < bs.len() && if 0 <= i < bs.len() {
                val_mentions(#[trigger] bs[i].1, x)
            } else {
                false
            }) || comp_mentions(*body, x),
        CompModel::To(_, e1, body) => comp_mentions(*e1, x) || comp_mentions(*body, x),
        CompModel::Returner(v) => val_mentions(*v, x),
        CompModel::Force(v) => val_mentions(*v, x),
        CompModel::PmSum(s, _, b1, _, b2) => val_mentions(*s, x) || comp_mentions(*b1, x)
            || comp_mentions(*b2, x),
        CompModel::PmPair(s, _, _, body) => val_mentions(*s, x) || comp_mentions(*body, x),
        CompModel::CoPm(b1, b2) => comp_mentions(*b1, x) || comp_mentions(*b2, x),
        CompModel::Proj(_, c) => comp_mentions(*c, x),
        CompModel::Pop(_, _, c) => comp_mentions(*c, x),
        CompModel::Push(v, c) => val_mentions(*v, x) || comp_mentions(*c, x),
        CompModel::Prim2(_, a, b) => val_mentions(*a, x) || val_mentions(*b, x),
    }
}

/// Substituting for a variable that does not occur in a value leaves it unchanged.
pub proof fn lemma_subst_val_unmentioned(e: ValModel, x: Seq<char>, v: ValModel)
    requires
        !val_mentions(e, x),
    ensures
        subst_val(e, x, v) == e,
    decreases e,
{
    match e {
        ValModel::Thunk(c) => lemma_subst_comp_unmentioned(*c, x, v),
        ValModel::Sum(_, w) => lemma_subst_val_unmentioned(*w, x, v),
        ValModel::Prod(a, b) => {
            lemma_subst_val_unmentioned(*a, x, v);
            lemma_subst_val_unmentioned(*b, x, v);
        },
        _ => {},
    }
}

/// Substituting for a variable that does not occur in a computation leaves it
/// unchanged.
pub proof fn lemma_subst_comp_unmentioned(e: CompModel, x: Seq<char>, v: ValModel)
    requires
        !comp_mentions(e, x),
    ensures
        subst_comp(e, x, v) == e,
    decreases e,
{
    match e {
        CompModel::Let(bs, body) => {
            lemma_subst_comp_unmentioned(*body, x, v);
            let nbs = match subst_comp(e, x, v) {
                CompModel::Let(s, _) => s,
                _ => Seq::empty(),
            };
            assert forall|i: int| 0 <= i < bs.len() implies nbs[i] == bs[i] by {
                assert(!val_mentions(bs[i].1, x));
                lemma_subst_val_unmentioned(bs[i].1, x, v);
            }
            assert(nbs =~= bs);
        },
        CompModel::To(_, e1, body) => {
            lemma_subst_comp_unmentioned(*e1, x, v);
            lemma_subst_comp_unmentioned(*body, x, v);
        },
        CompModel::Returner(w) => lemma_subst_val_unmentioned(*w, x, v),
        CompModel::Force(w) => lemma_subst_val_unmentioned(*w, x, v),
        CompModel::PmSum(s, _, b1, _, b2) => {
            lemma_subst_val_unmentioned(*s, x, v);
            lemma_subst_comp_unmentioned(*b1, x, v);
            lemma_subst_comp_unmentioned(*b2, x, v);
        },
        CompModel::PmPair(s, _, _, body) => {
            lemma_subst_val_unmentioned(*s, x, v);
            lemma_subst_comp_unmentioned(*body, x, v);
        },
        CompModel::CoPm(b1, b2) => {
            lemma_subst_comp_unmentioned(*b1, x, v);
            lemma_subst_comp_unmentioned(*b2, x, v);
        },
        CompModel::Proj(_, c) => lemma_subst_comp_unmentioned(*c, x, v),
        CompModel::Pop(_, _, c) => lemma_subst_comp_unmentioned(*c, x, v),
        CompModel::Push(w, c) => {
            lemma_subst_val_unmentioned(*w, x, v);
            lemma_subst_comp_unmentioned(*c, x, v);
        },
        CompModel::Prim2(_, a, b) => {
            lemma_subst_val_unmentioned(*a, x, v);
            lemma_subst_val_unmentioned(*b, x, v);
        },
    }
}

/// Whether some binder in the value `e` binds the name `x`.
pub open spec fn val_binds(e: ValModel, x: Seq<char>) -> bool
    decreases e,
{
    match e {
        ValModel::Thunk(c) => comp_binds(*c, x),
        ValModel::Sum(_, w) => val_binds(*w, x),
        ValModel::Prod(a, b) => val_binds(*a, x) || val_binds(*b, x),
        _ => false,
    }
}

/// Whether some binder in the computation `e` binds the name `x`.
pub open spec fn comp_binds(e: CompModel, x: Seq<char>) -> bool
    decreases e,
{
    match e {
        CompModel::Let(bs, body) => (exists|i: int|
            #![trigger bs[i]]
            0 <= i < bs.len() && if 0 <= i < bs.len() {
                bs[i].0 == x || val_binds(bs[i].1, x)
            } else {
                false
            }) || comp_binds(*body, x),
        CompModel::To(y, e1, body) => y == x || comp_binds(*e1, x) || comp_binds(*body, x),
        CompModel::Returner(v) => val_binds(*v, x),
        CompModel::Force(v) => val_binds(*v, x),
        CompModel::PmSum(s, l, b1, r, b2) => l == x || r == x || val_binds(*s, x) || comp_binds(*b1, x)
            || comp_binds(*b2, x),
        CompModel::PmPair(s, l, r, body) => l == x || r == x || val_binds(*s, x) || comp_binds(*body, x),
        CompModel::CoPm(b1, b2) => comp_binds(*b1, x) || comp_binds(*b2, x),
        CompModel::Proj(_, c) => comp_binds(*c, x),
        CompModel::Pop(y, _, c) => y == x || comp_binds(*c, x),
        CompModel::Push(v, c) => val_binds(*v, x) || comp_binds(*c, x),
        CompModel::Prim2(_, a, b) => val_binds(*a, x) || val_binds(*b, x),
    }
}

/// Where no binder of a value binds `x`, substitution replaces every
/// occurrence of `x`: none is left unless `v` brings it.
pub proof fn lemma_subst_val_replaces_all(e: ValModel, x: Seq<char>, v: ValModel)
    requires
        !val_binds(e, x),
        !val_mentions(v, x),
    ensures
        !val_mentions(subst_val(e, x, v), x),
    decreases e,
{
    match e {
        ValModel::Thunk(c) => lemma_subst_comp_replaces_all(*c, x, v),
        ValModel::Sum(_, w) => lemma_subst_val_replaces_all(*w, x, v),
        ValModel::Prod(a, b) => {
            lemma_subst_val_replaces_all(*a, x, v);
            lemma_subst_val_replaces_all(*b, x, v);
        },
        _ => {},
    }
}

/// Where no binder of a computation binds `x`, substitution replaces every
/// occurrence of `x`: none is left unless `v` brings it.
pub proof fn lemma_subst_comp_replaces_all(e: CompModel, x: Seq<char>, v: ValModel)
    requires
        !comp_binds(e, x),
        !val_mentions(v, x),
    ensures
        !comp_mentions(subst_comp(e, x, v), x),
    decreases e,
{
    match e {
        CompModel::Let(bs, body) => {
            lemma_subst_comp_replaces_all(*body, x, v);
            let nbs = match subst_comp(e, x, v) {
                CompModel::Let(s, _) => s,
                _ => Seq::empty(),
            };
            assert forall|i: int| 0 <= i < nbs.len() implies !val_mentions(#[trigger] nbs[i].1, x) by {
                assert(!(bs[i].0 == x || val_binds(bs[i].1, x)));
                lemma_subst_val_replaces_all(bs[i].1, x, v);
            }
        },
        CompModel::To(_, e1, body) => {
            lemma_subst_comp_replaces_all(*e1, x, v);
            lemma_subst_comp_replaces_all(*body, x, v);
        },
        CompModel::Returner(w) => lemma_subst_val_replaces_all(*w, x, v),
        CompModel::Force(w) => lemma_subst_val_replaces_all(*w, x, v),
        CompModel::PmSum(s, _, b1, _, b2) => {
            lemma_subst_val_replaces_all(*s, x, v);
            lemma_subst_comp_replaces_all(*b1, x, v);
            lemma_subst_comp_replaces_all(*b2, x, v);
        },
        CompModel::PmPair(s, _, _, body) => {
            lemma_subst_val_replaces_all(*s, x, v);
            lemma_subst_comp_replaces_all(*body, x, v);
        },
        CompModel::CoPm(b1, b2) => {
            lemma_subst_comp_replaces_all(*b1, x, v);
            lemma_subst_comp_replaces_all(*b2, x, v);
        },
        CompModel::Proj(_, c) => lemma_subst_comp_replaces_all(*c, x, v),
        CompModel::Pop(_, _, c) => lemma_subst_comp_replaces_all(*c, x, v),
        CompModel::Push(w, c) => {
            lemma_subst_val_replaces_all(*w, x, v);
            lemma_subst_comp_replaces_all(*c, x, v);
        },
        CompModel::Prim2(_, a, b) => {
            lemma_subst_val_replaces_all(*a, x, v);
            lemma_subst_val_replaces_all(*b, x, v);
        },
    }
}

/// Substitution replaces the variable `x` by `v`, keeps every other variable
/// and every constant, and goes into thunks, injections and pairs.
pub proof fn lemma_subst_values(x: Seq<char>, v: ValModel, y: Seq<char>, n: i64, b: bool, c: CompModel, d: bool, w1: ValModel, w2: ValModel)
    ensures
        subst_val(ValModel::Var(x), x, v) == v,
        y != x ==> subst_val(ValModel::Var(y), x, v) == ValModel::Var(y),
        subst_val(ValModel::Num(n), x, v) == ValModel::Num(n),
        subst_val(ValModel::Bool(b), x, v) == ValModel::Bool(b),
        subst_val(ValModel::Thunk(Box::new(c)), x, v) == ValModel::Thunk(Box::new(subst_comp(c, x, v))),
        subst_val(ValModel::Sum(d, Box::new(w1)), x, v) == ValModel::Sum(d, Box::new(subst_val(w1, x, v))),
        subst_val(ValModel::Prod(Box::new(w1), Box::new(w2)), x, v) == ValModel::Prod(
            Box::new(subst_val(w1, x, v)),
            Box::new(subst_val(w2, x, v)),
        ),
{
}

/// A match on injections substitutes into its subject always, and into a
/// branch exactly when that branch's variable is not `x`: the body of a
/// branch that binds `x` is left as it is.
pub proof fn lemma_subst_pm_sum(s: ValModel, l: Seq<char>, b1: CompModel, r: Seq<char>, b2: CompModel, x: Seq<char>, v: ValModel)
    ensures
        ({
            let res = subst_comp(CompModel::PmSum(Box::new(s), l, Box::new(b1), r, Box::new(b2)), x, v);
            &&& res is PmSum
            &&& *res->PmSum_0 == subst_val(s, x, v)
            &&& res->PmSum_1 == l
            &&& res->PmSum_3 == r
            &&& l == x ==> *res->PmSum_2 == b1
            &&& l != x ==> *res->PmSum_2 == subst_comp(b1, x, v)
            &&& r == x ==> *res->PmSum_4 == b2
            &&& r != x ==> *res->PmSum_4 == subst_comp(b2, x, v)
        }),
{
}

/// A pair match substitutes into its subject always, and into its body exactly
/// when neither of its variables is `x`.
pub proof fn lemma_subst_pm_pair(s: ValModel, l: Seq<char>, r: Seq<char>, body: CompModel, x: Seq<char>, v: ValModel)
    ensures
        ({
            let res = subst_comp(CompModel::PmPair(Box::new(s), l, r, Box::new(body)), x, v);
            &&& res is PmPair
            &&& *res->PmPair_0 == subst_val(s, x, v)
            &&& res->PmPair_1 == l
            &&& res->PmPair_2 == r
            &&& (l == x || r == x) ==> *res->PmPair_3 == body
            &&& (l != x && r != x) ==> *res->PmPair_3 == subst_comp(body, x, v)
        }),
{
}

/// A `pop` of `x` is left as it is; a `pop` of another name substitutes into
/// its body.
pub proof fn lemma_subst_pop(y: Seq<char>, t: TVal, c: CompModel, x: Seq<char>, v: ValModel)
    ensures
        y == x ==> subst_comp(CompModel::Pop(y, t, Box::new(c)), x, v) == CompModel::Pop(y, t, Box::new(c)),
        y != x ==> subst_comp(CompModel::Pop(y, t, Box::new(c)), x, v) == CompModel::Pop(
            y,
            t,
            Box::new(subst_comp(c, x, v)),
        ),
{
}

/// A `let` keeps its names and the number of its bindings, keeps the value of
/// every binding named `x`, substitutes into the value of every other binding,
/// and substitutes into its body.
pub proof fn lemma_subst_let(bs: Seq<(Seq<char>, ValModel)>, body: CompModel, x: Seq<char>, v: ValModel)
    ensures
        ({
            let res = subst_comp(CompModel::Let(bs, Box::new(body)), x, v);
            &&& res is Let
            &&& res->Let_0.len() == bs.len()
            &&& *res->Let_1 == subst_comp(body, x, v)
            &&& forall|i: int| 0 <= i < bs.len() ==> {
                &&& (#[trigger] res->Let_0[i]).0 == bs[i].0
                &&& bs[i].0 == x ==> res->Let_0[i].1 == bs[i].1
                &&& bs[i].0 != x ==> res->Let_0[i].1 == subst_val(bs[i].1, x, v)
            }
        }),
{
}

/// A `to` binding `x` keeps its bound computation and substitutes into its
/// body; a `to` binding another name substitutes into both.
pub proof fn lemma_subst_to(y: Seq<char>, e: CompModel, body: CompModel, x: Seq<char>, v: ValModel)
    ensures
        y == x ==> subst_comp(CompModel::To(y, Box::new(e), Box::new(body)), x, v) == CompModel::To(
            y,
            Box::new(e),
            Box::new(subst_comp(body, x, v)),
        ),
        y != x ==> subst_comp(CompModel::To(y, Box::new(e), Box::new(body)), x, v) == CompModel::To(
            y,
            Box::new(subst_comp(e, x, v)),
            Box::new(subst_comp(body, x, v)),
        ),
{
}

/// Every construct that binds nothing substitutes into each of its parts.
pub proof fn lemma_subst_unbinding(w: ValModel, w2: ValModel, c: CompModel, c2: CompModel, d: bool, op: Prim2, x: Seq<char>, v: ValModel)
    ensures
        subst_comp(CompModel::Returner(Box::new(w)), x, v) == CompModel::Returner(Box::new(subst_val(w, x, v))),
        subst_comp(CompModel::Force(Box::new(w)), x, v) == CompModel::Force(Box::new(subst_val(w, x, v))),
        subst_comp(CompModel::CoPm(Box::new(c), Box::new(c2)), x, v) == CompModel::CoPm(
            Box::new(subst_comp(c, x, v)),
            Box::new(subst_comp(c2, x, v)),
        ),
        subst_comp(CompModel::Proj(d, Box::new(c)), x, v) == CompModel::Proj(d, Box::new(subst_comp(c, x, v))),
        subst_comp(CompModel::Push(Box::new(w), Box::new(c)), x, v) == CompModel::Push(
            Box::new(subst_val(w, x, v)),
            Box::new(subst_comp(c, x, v)),
        ),
        subst_comp(CompModel::Prim2(op, Box::new(w), Box::new(w2)), x, v) == CompModel::Prim2(
            op,
            Box::new(subst_val(w, x, v)),
            Box::new(subst_val(w2, x, v)),
        ),
{
}

// ---------------------------------------------------------------------
// Typing environments
// ---------------------------------------------------------------------

/// A binding added last shadows every earlier binding of the same name and
/// leaves the lookup of every other name unchanged.
pub proof fn lemma_lookup_push(g: Seq<(Seq<char>, TVal)>, y: Seq<char>, t: TVal, x: Seq<char>)
    ensures
        lookup_spec(g.push((y, t)), x) == if x == y {
            Judgement::Has(t)
        } else {
            lookup_spec(g, x)
        },
{
    assert(g.push((y, t)).drop_last() =~= g);
}

} // verus!
