//! Mathematical model of expressions, and the meaning of each operation on them.
//!
//! The executable types of the library are related to this model by their views; every
//! contract of the library is stated over it.
use vstd::prelude::*;

verus! {

/// An expression, with names as character sequences and depths as natural numbers.
pub ghost enum Term {
    /// An occurrence not (yet) resolved against a binder.
    Free(Seq<char>),
    /// An occurrence resolved to the binder `depth` binders up; the name is for display.
    Bound(nat, Seq<char>),
    /// λ abstraction: binder name, parameter type, body.
    Abs(Seq<char>, Box<Term>, Box<Term>),
    /// Π type: binder name, parameter type, codomain.
    For(Seq<char>, Box<Term>, Box<Term>),
    /// Application of a function to an argument.
    App(Box<Term>, Box<Term>),
    /// The sort `*`.
    TypeMeta,
    /// The sort `□`.
    KindMeta,
}

/// Why a judgment failed.
pub ghost enum Fault {
    /// A failure with no more structure than its message.
    Generic(Seq<char>),
    /// An expression, its type, the accepted types (empty where none apply), a message.
    Compat(Term, Term, Seq<Term>, Seq<char>),
    /// An expression that has no type.
    Undef(Term),
    /// A variable with no type in the context.
    Unknown(Seq<char>),
    /// A variable, the type it has, and the different type it was given again.
    Redecl(Seq<char>, Term, Term),
}

/// The larger of two numbers.
pub open spec fn larger(a: nat, b: nat) -> nat {
    if a >= b { a } else { b }
}

/// A typing context: each name has at most one type.
pub type Env = Map<Seq<char>, Term>;

impl Term {
    /// The name of a variable occurrence (empty for other expressions).
    pub open spec fn name(self) -> Seq<char> {
        match self {
            Term::Free(v) => v,
            Term::Bound(_, v) => v,
            _ => Seq::empty(),
        }
    }

    /// The deepest nesting of binder bodies: entering a binder's body counts one.
    pub open spec fn depth(self) -> nat
        decreases self,
    {
        match self {
            Term::Abs(_, a, m) => larger(a.depth(), m.depth() + 1),
            Term::For(_, a, m) => larger(a.depth(), m.depth() + 1),
            Term::App(f, n) => larger(f.depth(), n.depth()),
            _ => 0,
        }
    }

    /// Resolve the free occurrences of `v` that are `d` binders below its binder, stopping at
    /// inner binders of the same name. Parameter types are left as they are.
    pub open spec fn index(self, d: nat, v: Seq<char>) -> Term
        decreases self,
    {
        match self {
            Term::Free(w) => if w == v { Term::Bound(d, v) } else { self },
            Term::Abs(x, a, m) => if x == v { self } else {
                Term::Abs(x, a, Box::new(m.index(d + 1, v)))
            },
            Term::For(x, a, m) => if x == v { self } else {
                Term::For(x, a, Box::new(m.index(d + 1, v)))
            },
            Term::App(f, n) => Term::App(Box::new(f.index(d, v)), Box::new(n.index(d, v))),
            _ => self,
        }
    }

    /// Replace the occurrences bound at depth `loc` by `c`, and close the gap left by that
    /// binder: occurrences bound further out move one binder closer. Parameter types are
    /// left as they are, as are free occurrences.
    pub open spec fn subst(self, loc: nat, c: Term) -> Term
        decreases self,
    {
        match self {
            Term::Bound(k, w) => if k == loc {
                c
            } else if k > loc {
                Term::Bound((k - 1) as nat, w)
            } else {
                self
            },
            Term::Abs(x, a, m) => Term::Abs(x, a, Box::new(m.subst(loc + 1, c))),
            Term::For(x, a, m) => Term::For(x, a, Box::new(m.subst(loc + 1, c))),
            Term::App(f, n) => Term::App(Box::new(f.subst(loc, c)), Box::new(n.subst(loc, c))),
            _ => self,
        }
    }

    /// One reduction pass: an application of a literal λ is contracted, everything else is
    /// reduced in its parts.
    pub open spec fn pass(self) -> Term
        decreases self,
    {
        match self {
            Term::Abs(x, a, m) => Term::Abs(x, Box::new(a.pass()), Box::new(m.pass())),
            Term::For(x, a, m) => Term::For(x, Box::new(a.pass()), Box::new(m.pass())),
            Term::App(f, n) => match *f {
                Term::Abs(_, _, m) => m.subst(0, *n),
                _ => Term::App(Box::new(f.pass()), Box::new(n.pass())),
            },
            _ => self,
        }
    }
}

/// The number of passes that reduction may take.
pub const PASS_LIMIT: u64 = 1024;

/// The nesting of judgments that type derivation may take.
pub const JUDGMENT_LIMIT: u64 = 1024;

/// Message of the failure when reduction runs out of passes.
pub open spec fn pass_limit_message() -> Seq<char> {
    "reduction found no normal form within the pass limit"@
}

/// Message of the failure when type derivation runs out of nesting.
pub open spec fn judgment_limit_message() -> Seq<char> {
    "type derivation exceeds the judgment nesting limit"@
}

/// Message of the failure when binders nest deeper than indices can count.
pub open spec fn depth_limit_message() -> Seq<char> {
    "binders nest deeper than indices can count"@
}

/// Repeat reduction passes until one leaves the expression unchanged, for at most `fuel`
/// passes.
pub open spec fn normalize(t: Term, fuel: nat) -> Result<Term, Fault>
    decreases fuel,
{
    if fuel == 0 {
        Err(Fault::Generic(pass_limit_message()))
    } else if t.depth() > usize::MAX {
        Err(Fault::Generic(depth_limit_message()))
    } else if t.pass() == t {
        Ok(t)
    } else {
        normalize(t.pass(), (fuel - 1) as nat)
    }
}

/// The normal form of `t`, as the library computes it.
pub open spec fn reduced(t: Term) -> Result<Term, Fault> {
    normalize(t, PASS_LIMIT as nat)
}

/// The two sorts.
pub open spec fn sorts() -> Seq<Term> {
    seq![Term::TypeMeta, Term::KindMeta]
}

/// Message of a type-incompatibility failure on `t`.
pub open spec fn compat_message(t: Term) -> Seq<char> {
    ":type "@ + show(t, false, false) + " does not have the requisite form!"@
}

/// Accept `t`, whose derived type is `res`, if the normal form of that type is one of `acc`.
pub open spec fn accept(t: Term, res: Result<Term, Fault>, acc: Seq<Term>) -> Result<(), Fault> {
    match res {
        Err(e) => Err(e),
        Ok(act) => match reduced(act) {
            Err(e) => Err(e),
            Ok(n) => if acc.contains(n) {
                Ok(())
            } else {
                Err(Fault::Compat(t, n, acc, compat_message(t)))
            },
        },
    }
}

/// Extend `g` with `x : a`, failing where `x` already has another type.
pub open spec fn extend(g: Env, x: Seq<char>, a: Term) -> Result<Env, Fault> {
    if g.contains_key(x) && g[x] != a {
        Err(Fault::Redecl(x, g[x], a))
    } else {
        Ok(g.insert(x, a))
    }
}

/// The type derived for `t` in `g`, with judgments nested at most `fuel` deep.
pub open spec fn typing(t: Term, g: Env, fuel: nat) -> Result<Term, Fault>
    decreases fuel, 0nat,
{
    if fuel == 0 {
        Err(Fault::Generic(judgment_limit_message()))
    } else {
        let f = (fuel - 1) as nat;
        match t {
            Term::Free(v) => typing_var(v, g, f),
            Term::Bound(_, v) => typing_var(v, g, f),
            Term::Abs(x, a, m) => match extend(g, x, *a) {
                Err(e) => Err(e),
                Ok(h) => match typing(*m, h, f) {
                    Err(e) => Err(e),
                    Ok(b) => {
                        let p = Term::For(x, a, Box::new(b));
                        match accept(p, typing(p, g, f), sorts()) {
                            Err(e) => Err(e),
                            Ok(_) => Ok(p),
                        }
                    },
                },
            },
            Term::For(x, a, b) => match extend(g, x, *a) {
                Err(e) => Err(e),
                Ok(h) => match typing(*b, h, f) {
                    Err(e) => Err(e),
                    Ok(s) => match accept(*a, typing(*a, g, f), sorts()) {
                        Err(e) => Err(e),
                        Ok(_) => Ok(s),
                    },
                },
            },
            Term::App(m, n) => match typing(*m, g, f) {
                Err(e) => Err(e),
                Ok(ft) => match typing(*n, g, f) {
                    Err(e) => Err(e),
                    Ok(st) => match ft {
                        Term::For(_, a, b) => match reduced(*a) {
                            Err(e) => Err(e),
                            Ok(an) => match accept(*n, Ok(st), seq![an]) {
                                Err(e) => Err(e),
                                Ok(_) => if b.depth() > usize::MAX {
                                    Err(Fault::Generic(depth_limit_message()))
                                } else {
                                    reduced(b.subst(0, *n))
                                },
                            },
                        },
                        _ => Err(Fault::Compat(*n, st, Seq::empty(), compat_message(*n))),
                    },
                },
            },
            Term::TypeMeta => Ok(Term::KindMeta),
            Term::KindMeta => Err(Fault::Undef(Term::KindMeta)),
        }
    }
}

/// The VAR rule: the declared type of `v`, which must itself have a sort in the rest of the
/// context, in normal form.
pub open spec fn typing_var(v: Seq<char>, g: Env, fuel: nat) -> Result<Term, Fault>
    decreases fuel, 1nat,
{
    if !g.contains_key(v) {
        Err(Fault::Unknown(v))
    } else {
        let t = g[v];
        match accept(t, typing(t, g.remove(v), fuel), sorts()) {
            Err(e) => Err(e),
            Ok(_) => reduced(t),
        }
    }
}

/// The type that the library derives for `t` in `g`.
pub open spec fn type_of(t: Term, g: Env) -> Result<Term, Fault> {
    typing(t, g, JUDGMENT_LIMIT as nat)
}

/// `s` in parentheses where `p` holds.
pub open spec fn wrap(p: bool, s: Seq<char>) -> Seq<char> {
    if p { "("@ + s + ")"@ } else { s }
}

/// The canonical text of `t`. `left` holds in the left operand of an application, `right`
/// in the right operand; a binder is parenthesized on the left, an application on the right,
/// and a binder's parts are shown afresh.
pub open spec fn show(t: Term, left: bool, right: bool) -> Seq<char>
    decreases t,
{
    match t {
        Term::Free(v) => v,
        Term::Bound(_, v) => v,
        Term::Abs(x, a, m) => wrap(
            left,
            "λ"@ + x + " : "@ + show(*a, false, false) + " . "@ + show(*m, false, false),
        ),
        Term::For(x, a, m) => wrap(
            left,
            "Π"@ + x + " : "@ + show(*a, false, false) + " . "@ + show(*m, false, false),
        ),
        Term::App(f, n) => wrap(right, show(*f, !right, right) + " "@ + show(*n, left, !right)),
        Term::TypeMeta => "*"@,
        Term::KindMeta => "□"@,
    }
}

} // verus!
