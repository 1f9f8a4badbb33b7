//! Expressions of the core language: construction with de Bruijn indexing, substitution,
//! β-reduction, type derivation, and canonical rendering.
use vstd::prelude::*;
use vstd::string::*;

use crate::ctx::Ctx;
use crate::err::{TypeCompatErr, TypeUndefErr, TypingErr};
use crate::term::{
    Fault, JUDGMENT_LIMIT, PASS_LIMIT, Term, accept, normalize, reduced, show, sorts, type_of,
    typing, typing_var, wrap,
};
use crate::var::{Idx, Var, VarIdx};

verus! {

/// An expression of the core language.
#[derive(Debug, PartialEq, Eq, Hash)]
pub enum Exp {
    /// Variable occurrence, free or resolved against its binder.
    Var(VarIdx),
    /// λ abstraction: binder, parameter type, body.
    Abs(Var, Box<Exp>, Box<Exp>),
    /// Π type: binder, parameter type, codomain.
    For(Var, Box<Exp>, Box<Exp>),
    /// Application of a function to an argument.
    App(Box<Exp>, Box<Exp>),
    /// The type of all types, `*`.
    TypeMeta,
    /// The type of all kinds, `□`.
    KindMeta,
}

/// Where an expression stands with respect to the applications around it, for rendering:
/// in the left operand only, in the right operand only, or neither.
#[derive(Debug, Clone, Copy)]
pub struct Branch {
    /// In the left operand of an application.
    pub ltree: bool,
    /// In the right operand of an application.
    pub rtree: bool,
}

impl Exp {
    /// The model of this expression.
    pub open spec fn model(self) -> Term
        decreases self,
    {
        match self {
            Exp::Var(v) => v@,
            Exp::Abs(x, a, m) => Term::Abs(x@, Box::new(a.model()), Box::new(m.model())),
            Exp::For(x, a, m) => Term::For(x@, Box::new(a.model()), Box::new(m.model())),
            Exp::App(f, n) => Term::App(Box::new(f.model()), Box::new(n.model())),
            Exp::TypeMeta => Term::TypeMeta,
            Exp::KindMeta => Term::KindMeta,
        }
    }
}

impl View for Exp {
    type V = Term;

    open spec fn view(&self) -> Term {
        self.model()
    }
}

/// The model of the result of a judgment.
pub open spec fn outcome(r: Result<Exp, TypingErr>) -> Result<Term, Fault> {
    match r {
        Ok(e) => Ok(e@),
        Err(f) => Err(f@),
    }
}

/// The model of the result of a check.
pub open spec fn verdict(r: Result<(), TypingErr>) -> Result<(), Fault> {
    match r {
        Ok(_) => Ok(()),
        Err(f) => Err(f@),
    }
}

/// The models of a list of expressions.
pub open spec fn models_of(acc: Seq<&Exp>) -> Seq<Term> {
    acc.map_values(|e: &Exp| e@)
}

impl Default for Exp {
    /// The sort `□`.
    fn default() -> (r: Exp)
        ensures
            r@ == Term::KindMeta,
    {
        Exp::KindMeta
    }
}

impl Clone for Exp {
    fn clone(&self) -> Self {
        self.copy()
    }
}

impl Branch {
    /// Neither operand: the state at the root and inside binders.
    pub fn new() -> (r: Branch)
        ensures
            !r.ltree,
            !r.rtree,
    {
        Branch { ltree: false, rtree: false }
    }
}

impl Exp {
    /// A free occurrence of `var`.
    pub fn new_var(var: Var) -> (r: Exp)
        ensures
            r@ == Term::Free(var@),
    {
        Exp::Var(VarIdx::new_var(var))
    }

    /// The λ abstraction `λvar : typ . exp`, with the free occurrences of `var` in `exp`
    /// resolved against it.
    pub fn new_abs(var: Var, typ: Exp, exp: Exp) -> (r: Exp)
        requires
            exp@.depth() <= usize::MAX,
        ensures
            r@ == Term::Abs(var@, Box::new(typ@), Box::new(exp@.index(0, var@))),
    {
        let mut exp = exp;
        exp.index(&Idx::new(&var));
        Exp::Abs(var, Box::new(typ), Box::new(exp))
    }

    /// The Π type `Πvar : typ . exp`, with the free occurrences of `var` in `exp` resolved
    /// against it.
    pub fn new_for(var: Var, typ: Exp, exp: Exp) -> (r: Exp)
        requires
            exp@.depth() <= usize::MAX,
        ensures
            r@ == Term::For(var@, Box::new(typ@), Box::new(exp@.index(0, var@))),
    {
        let mut exp = exp;
        exp.index(&Idx::new(&var));
        Exp::For(var, Box::new(typ), Box::new(exp))
    }

    /// The application of `fst` to `snd`.
    pub fn new_app(fst: Exp, snd: Exp) -> (r: Exp)
        ensures
            r@ == Term::App(Box::new(fst@), Box::new(snd@)),
    {
        Exp::App(Box::new(fst), Box::new(snd))
    }

    /// The sort `*`.
    pub fn get_type_meta() -> (r: Exp)
        ensures
            r@ == Term::TypeMeta,
    {
        Exp::TypeMeta
    }

    /// The sort `□`.
    pub fn get_kind_meta() -> (r: Exp)
        ensures
            r@ == Term::KindMeta,
    {
        Exp::KindMeta
    }

    /// Resolve the free occurrences of the variable of `idx` against a binder `idx.0`
    /// binders up, descending into bodies but not into binders of the same name.
    pub fn index(&mut self, idx: &Idx)
        requires
            idx.0 + old(self)@.depth() <= usize::MAX,
        ensures
            final(self)@ == old(self)@.index(idx@.0, idx@.1),
    {
        let mut e = Exp::KindMeta;
        core::mem::swap(self, &mut e);
        *self = e.indexed(idx);
    }

    /// This expression with the free occurrences of the variable of `idx` resolved.
    fn indexed(self, idx: &Idx) -> (r: Exp)
        requires
            idx.0 + self@.depth() <= usize::MAX,
        ensures
            r@ == self@.index(idx@.0, idx@.1),
        decreases self,
    {
        match self {
            Exp::Var(VarIdx::Var(var)) => {
                if var.same(&idx.1) {
                    Exp::Var(VarIdx::new_idx(idx.copy()))
                } else {
                    Exp::Var(VarIdx::Var(var))
                }
            },
            Exp::Abs(var, typ, exp) => {
                if var.same(&idx.1) {
                    Exp::Abs(var, typ, exp)
                } else {
                    let body = (*exp).indexed(&idx.inc());
                    Exp::Abs(var, typ, Box::new(body))
                }
            },
            Exp::For(var, typ, exp) => {
                if var.same(&idx.1) {
                    Exp::For(var, typ, exp)
                } else {
                    let body = (*exp).indexed(&idx.inc());
                    Exp::For(var, typ, Box::new(body))
                }
            },
            Exp::App(fst, snd) => {
                let f = (*fst).indexed(idx);
                let s = (*snd).indexed(idx);
                Exp::App(Box::new(f), Box::new(s))
            },
            other => other,
        }
    }

    /// A copy of this expression.
    pub fn copy(&self) -> (r: Exp)
        ensures
            r@ == self@,
        decreases self,
    {
        match self {
            Exp::Var(v) => Exp::Var(v.copy()),
            Exp::Abs(x, a, m) => Exp::Abs(x.copy(), Box::new(a.copy()), Box::new(m.copy())),
            Exp::For(x, a, m) => Exp::For(x.copy(), Box::new(a.copy()), Box::new(m.copy())),
            Exp::App(f, n) => Exp::App(Box::new(f.copy()), Box::new(n.copy())),
            Exp::TypeMeta => Exp::TypeMeta,
            Exp::KindMeta => Exp::KindMeta,
        }
    }

    /// Whether two expressions are the same tree, names and depths included.
    pub fn same(&self, other: &Exp) -> (r: bool)
        ensures
            r == (self@ == other@),
        decreases self,
    {
        match (self, other) {
            (Exp::Var(VarIdx::Var(v)), Exp::Var(VarIdx::Var(w))) => v.same(w),
            (Exp::Var(VarIdx::Idx(i)), Exp::Var(VarIdx::Idx(j))) => i.0 == j.0 && i.1.same(&j.1),
            (Exp::Abs(x, a, m), Exp::Abs(y, b, n)) => x.same(y) && a.same(b) && m.same(n),
            (Exp::For(x, a, m), Exp::For(y, b, n)) => x.same(y) && a.same(b) && m.same(n),
            (Exp::App(f, n), Exp::App(g, m)) => f.same(g) && n.same(m),
            (Exp::TypeMeta, Exp::TypeMeta) => true,
            (Exp::KindMeta, Exp::KindMeta) => true,
            _ => false,
        }
    }

    /// Whether binders nest at most `limit` deep in this expression.
    pub fn depth_within(&self, limit: usize) -> (r: bool)
        ensures
            r == (self@.depth() <= limit),
        decreases self,
    {
        match self {
            Exp::Abs(_, a, m) => limit >= 1 && a.depth_within(limit) && m.depth_within(limit - 1),
            Exp::For(_, a, m) => limit >= 1 && a.depth_within(limit) && m.depth_within(limit - 1),
            Exp::App(f, n) => f.depth_within(limit) && n.depth_within(limit),
            _ => true,
        }
    }

    /// Replace the occurrences bound at depth `loc` by `can`, and move the occurrences bound
    /// further out one binder closer, as the binder at `loc` goes away.
    fn subst(self, loc: &Idx, can: &Exp) -> (r: Exp)
        requires
            loc.0 + self@.depth() <= usize::MAX,
        ensures
            r@ == self@.subst(loc@.0, can@),
        decreases self,
    {
        match self {
            Exp::Var(VarIdx::Idx(idx)) => {
                if idx.0 == loc.0 {
                    can.copy()
                } else if idx.0 > loc.0 {
                    Exp::Var(VarIdx::Idx(idx.dec()))
                } else {
                    Exp::Var(VarIdx::Idx(idx))
                }
            },
            Exp::Abs(var, typ, exp) => {
                let body = (*exp).subst(&loc.inc(), can);
                Exp::Abs(var, typ, Box::new(body))
            },
            Exp::For(var, typ, exp) => {
                let body = (*exp).subst(&loc.inc(), can);
                Exp::For(var, typ, Box::new(body))
            },
            Exp::App(fst, snd) => {
                let f = (*fst).subst(loc, can);
                let s = (*snd).subst(loc, can);
                Exp::App(Box::new(f), Box::new(s))
            },
            other => other,
        }
    }

    /// One reduction pass: contract an application of a literal λ, reduce everything else in
    /// its parts.
    fn reduce_once(self) -> (r: Exp)
        requires
            self@.depth() <= usize::MAX,
        ensures
            r@ == self@.pass(),
        decreases self,
    {
        let ghost whole = self@;
        match self {
            Exp::Abs(var, typ, exp) => {
                let a = (*typ).reduce_once();
                let m = (*exp).reduce_once();
                Exp::Abs(var, Box::new(a), Box::new(m))
            },
            Exp::For(var, typ, exp) => {
                let a = (*typ).reduce_once();
                let m = (*exp).reduce_once();
                Exp::For(var, Box::new(a), Box::new(m))
            },
            Exp::App(fst, snd) => {
                let ghost fm = (*fst)@;
                assert(fm.depth() <= whole.depth());
                match *fst {
                    Exp::Abs(var, typ, exp) => {
                        assert(fm == Term::Abs(var@, Box::new(typ@), Box::new(exp@)));
                        assert(exp@.depth() < fm.depth());
                        let zero = Idx::new(&var);
                        (*exp).subst(&zero, &snd)
                    },
                    f => {
                        let a = f.reduce_once();
                        let b = (*snd).reduce_once();
                        Exp::App(Box::new(a), Box::new(b))
                    },
                }
            },
            other => other,
        }
    }

    /// The canonical text of this expression, with the fewest parentheses that keep
    /// application left-associative and binder bodies extending as far as they can.
    pub fn to_string(&self) -> (r: String)
        ensures
            r@ == show(self@, false, false),
    {
        self.fmt(Branch::new())
    }

    /// The text of this expression where it stands as `flags` say.
    fn fmt(&self, flags: Branch) -> (r: String)
        ensures
            r@ == show(self@, flags.ltree, flags.rtree),
        decreases self,
    {
        match self {
            Exp::Var(v) => v.to_string(),
            Exp::Abs(var, typ, exp) => {
                let t = typ.fmt(Branch::new());
                let b = exp.fmt(Branch::new());
                Exp::fmt_binder(flags, "λ", var, t, b)
            },
            Exp::For(var, typ, exp) => {
                let t = typ.fmt(Branch::new());
                let b = exp.fmt(Branch::new());
                Exp::fmt_binder(flags, "Π", var, t, b)
            },
            Exp::App(fst, snd) => {
                let f = fst.fmt(Branch { ltree: !flags.rtree, rtree: flags.rtree });
                let a = snd.fmt(Branch { ltree: flags.ltree, rtree: !flags.rtree });
                Exp::fmt_app(flags, f, a)
            },
            Exp::TypeMeta => String::from_str("*"),
            Exp::KindMeta => String::from_str("□"),
        }
    }

    /// The text of a binder from the text of its parts; it is parenthesized on the left of
    /// an application.
    fn fmt_binder(flags: Branch, binder: &str, var: &Var, typ: String, exp: String) -> (r: String)
        ensures
            r@ == wrap(flags.ltree, binder@ + var@ + " : "@ + typ@ + " . "@ + exp@),
    {
        let mut s = String::from_str(binder);
        s.append(var.0.as_str());
        s.append(" : ");
        s.append(typ.as_str());
        s.append(" . ");
        s.append(exp.as_str());
        Exp::parens(flags.ltree, s)
    }

    /// The text of an application from the text of its operands; it is parenthesized on the
    /// right of an application.
    fn fmt_app(flags: Branch, fst: String, snd: String) -> (r: String)
        ensures
            r@ == wrap(flags.rtree, fst@ + " "@ + snd@),
    {
        let mut s = fst;
        s.append(" ");
        s.append(snd.as_str());
        Exp::parens(flags.rtree, s)
    }

    /// `inner` in parentheses where `parens` holds.
    fn parens(parens: bool, inner: String) -> (r: String)
        ensures
            r@ == wrap(parens, inner@),
    {
        if parens {
            let mut s = String::from_str("(");
            s.append(inner.as_str());
            s.append(")");
            s
        } else {
            inner
        }
    }

    /// The normal form of this expression: reduction passes are repeated until one leaves
    /// the expression unchanged. Reduction is untyped and does not consult the context; it gives
    /// up with a generic failure after a fixed number of passes, which bounds the work on
    /// terms without a normal form.
    pub fn reduce(self, _ctx: &Ctx) -> (r: Result<Exp, TypingErr>)
        ensures
            outcome(r) == reduced(self@),
    {
        self.normal_form()
    }

    /// The normal form of this expression, within the pass limit.
    fn normal_form(self) -> (r: Result<Exp, TypingErr>)
        ensures
            outcome(r) == reduced(self@),
    {
        let ghost start = self@;
        let mut cur = self;
        let mut fuel: u64 = PASS_LIMIT;
        loop
            invariant
                start == self@,
                normalize(start, PASS_LIMIT as nat) == normalize(cur@, fuel as nat),
            decreases fuel,
        {
            if fuel == 0 {
                let m = String::from_str("reduction found no normal form within the pass limit");
                return Err(TypingErr::Generic(m));
            }
            if !cur.depth_within(usize::MAX) {
                return Err(TypingErr::Generic(String::from_str(
                    "binders nest deeper than indices can count",
                )));
            }
            let next = cur.copy().reduce_once();
            if next.same(&cur) {
                return Ok(cur);
            }
            cur = next;
            fuel = fuel - 1;
        }
    }

    /// The type of this expression in `ctx`, in normal form where the rule that gives it
    /// normalizes:
    /// - `*` has the type `□`, and `□` has none;
    /// - a variable has its declared type, which must have a sort in the rest of `ctx`;
    /// - `λx : A . M` has the type `Πx : A . B`, where `M` has the type `B` in `ctx` extended
    ///   with `x : A`, and that Π type must have a sort in `ctx`;
    /// - `Πx : A . B` has the type of `B` in `ctx` extended with `x : A`, and `A` must have a
    ///   sort in `ctx`;
    /// - `M N` has the type `B` with `N` put for `x`, where `M` has a type `Πx : A . B` and
    ///   `N` has the type `A`.
    /// Types are compared by their normal forms, names included. Variables are looked up by
    /// name, so binders that reuse a name with another type fail as a redeclaration.
    pub fn calculate_type(&self, ctx: &Ctx) -> (r: Result<Exp, TypingErr>)
        ensures
            outcome(r) == type_of(self@, ctx@),
    {
        self.derive(ctx, JUDGMENT_LIMIT)
    }

    /// The type of this expression in `ctx`, with judgments nested at most `fuel` deep.
    fn derive(&self, ctx: &Ctx, fuel: u64) -> (r: Result<Exp, TypingErr>)
        ensures
            outcome(r) == typing(self@, ctx@, fuel as nat),
        decreases fuel, 1nat,
    {
        if fuel == 0 {
            return Err(TypingErr::Generic(String::from_str(
                "type derivation exceeds the judgment nesting limit",
            )));
        }
        let f = fuel - 1;
        let ghost sorts_models = models_of(seq![&Exp::TypeMeta, &Exp::KindMeta]);
        assert(sorts_models =~= sorts());
        match self {
            Exp::Var(varidx) => {
                let var = varidx.get_var();
                proof {
                    match varidx {
                        VarIdx::Var(_) => {},
                        VarIdx::Idx(_) => {},
                    }
                    assert(typing(self@, ctx@, fuel as nat) == typing_var(var@, ctx@, f as nat));
                }
                let typ = match ctx.get(var) {
                    Ok(t) => t.copy(),
                    Err(e) => return Err(TypingErr::TypeUnknownErr(e)),
                };
                let rest = match ctx.remove(var) {
                    Ok(c) => c,
                    Err(e) => return Err(TypingErr::TypeUnknownErr(e)),
                };
                let sorts_acc: [&Exp; 2] = [&Exp::TypeMeta, &Exp::KindMeta];
                match typ.validate_type(&sorts_acc, &rest, f) {
                    Ok(_) => {},
                    Err(e) => return Err(e),
                }
                typ.normal_form()
            },
            Exp::Abs(var, typ, exp) => {
                let inner = match ctx.extend(var, typ) {
                    Ok(c) => c,
                    Err(e) => return Err(TypingErr::TypeRedeclErr(e)),
                };
                let body = match exp.derive(&inner, f) {
                    Ok(b) => b,
                    Err(e) => return Err(e),
                };
                let can = Exp::For(var.copy(), Box::new(typ.copy()), Box::new(body));
                let sorts_acc: [&Exp; 2] = [&Exp::TypeMeta, &Exp::KindMeta];
                match can.validate_type(&sorts_acc, ctx, f) {
                    Ok(_) => Ok(can),
                    Err(e) => Err(e),
                }
            },
            Exp::For(var, typ, exp) => {
                let inner = match ctx.extend(var, typ) {
                    Ok(c) => c,
                    Err(e) => return Err(TypingErr::TypeRedeclErr(e)),
                };
                let can = match exp.derive(&inner, f) {
                    Ok(b) => b,
                    Err(e) => return Err(e),
                };
                let sorts_acc: [&Exp; 2] = [&Exp::TypeMeta, &Exp::KindMeta];
                match typ.validate_type(&sorts_acc, ctx, f) {
                    Ok(_) => Ok(can),
                    Err(e) => Err(e),
                }
            },
            Exp::App(fst, snd) => {
                let fty = match fst.derive(ctx, f) {
                    Ok(t) => t,
                    Err(e) => return Err(e),
                };
                let sty = match snd.derive(ctx, f) {
                    Ok(t) => t,
                    Err(e) => return Err(e),
                };
                match fty {
                    Exp::For(var, typ, exp) => {
                        let an = match (*typ).normal_form() {
                            Ok(t) => t,
                            Err(e) => return Err(e),
                        };
                        let acc: [&Exp; 1] = [&an];
                        assert(models_of(acc@) =~= seq![an@]);
                        match snd.accept_type(sty, &acc) {
                            Ok(_) => {},
                            Err(e) => return Err(e),
                        }
                        if !exp.depth_within(usize::MAX) {
                            return Err(TypingErr::Generic(String::from_str(
                                "binders nest deeper than indices can count",
                            )));
                        }
                        let zero = Idx::new(&var);
                        (*exp).subst(&zero, snd).normal_form()
                    },
                    _ => {
                        let none: [&Exp; 0] = [];
                        assert(models_of(none@) =~= Seq::<Term>::empty());
                        Err(TypingErr::TypeCompatErr(TypeCompatErr::new(snd, &sty, &none)))
                    },
                }
            },
            Exp::TypeMeta => Ok(Exp::KindMeta),
            Exp::KindMeta => Err(TypingErr::TypeUndefErr(TypeUndefErr::new(self))),
        }
    }

    /// Check that the type of this expression in `ctx` is, in normal form, one of `acc`.
    fn validate_type(&self, acc: &[&Exp], ctx: &Ctx, fuel: u64) -> (r: Result<(), TypingErr>)
        ensures
            verdict(r) == accept(self@, typing(self@, ctx@, fuel as nat), models_of(acc@)),
        decreases fuel, 2nat,
    {
        let act = match self.derive(ctx, fuel) {
            Ok(t) => t,
            Err(e) => return Err(e),
        };
        self.accept_type(act, acc)
    }

    /// Check that `act`, the type of this expression, is in normal form one of `acc`.
    fn accept_type(&self, act: Exp, acc: &[&Exp]) -> (r: Result<(), TypingErr>)
        ensures
            verdict(r) == accept(self@, Ok(act@), models_of(acc@)),
    {
        let ghost ms = models_of(acc@);
        let n = match act.normal_form() {
            Ok(t) => t,
            Err(e) => return Err(e),
        };
        let mut i: usize = 0;
        while i < acc.len()
            invariant
                i <= acc@.len(),
                ms == models_of(acc@),
                reduced(act@) == Ok::<Term, Fault>(n@),
                forall|j: int| 0 <= j < i ==> ms[j] != n@,
            decreases acc@.len() - i,
        {
            if n.same(acc[i]) {
                assert(ms[i as int] == n@);
                return Ok(());
            }
            i = i + 1;
        }
        assert(!ms.contains(n@));
        Err(TypingErr::TypeCompatErr(TypeCompatErr::new(self, &n, acc)))
    }
}

} // verus!
