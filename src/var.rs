//! Variables of the expression language: names, de Bruijn indices, and occurrences.
use vstd::prelude::*;

use crate::term::Term;

verus! {

/// A symbolic variable, identified by its name.
#[derive(Debug, Clone, PartialEq, Eq, Hash)]
pub struct Var(pub String);

/// A variable resolved against an enclosing binder: the number of binders between the
/// occurrence and its own binder (0 for the innermost), and the variable's name, which is
/// kept for display only.
#[derive(Debug, Clone, PartialEq, Eq, Hash)]
pub struct Idx(pub usize, pub Var);

/// An occurrence of a variable, either still free (symbolic) or resolved to an index.
#[derive(Debug, Clone, PartialEq, Eq, Hash)]
pub enum VarIdx {
    Var(Var),
    Idx(Idx),
}

impl View for Var {
    type V = Seq<char>;

    open spec fn view(&self) -> Seq<char> {
        self.0@
    }
}

impl View for Idx {
    type V = (nat, Seq<char>);

    open spec fn view(&self) -> (nat, Seq<char>) {
        (self.0 as nat, self.1@)
    }
}

impl View for VarIdx {
    type V = Term;

    /// A free occurrence is a free term variable, a resolved one a bound term variable.
    open spec fn view(&self) -> Term {
        match self {
            VarIdx::Var(v) => Term::Free(v@),
            VarIdx::Idx(i) => Term::Bound(i.0 as nat, i.1@),
        }
    }
}

impl Var {
    /// Create a symbolic variable with the given name.
    pub fn new(val: &str) -> (r: Var)
        ensures
            r@ == val@,
    {
        Var(val.to_string())
    }

    /// Copy this variable.
    pub fn copy(&self) -> (r: Var)
        ensures
            r@ == self@,
    {
        Var(self.0.clone())
    }

    /// Whether two variables have the same name.
    pub fn same(&self, other: &Var) -> (r: bool)
        ensures
            r == (self@ == other@),
    {
        self.0 == other.0
    }

    /// The variable's name, as it is displayed.
    pub fn to_string(&self) -> (r: String)
        ensures
            r@ == self@,
    {
        self.0.clone()
    }
}

impl Idx {
    /// The index of depth 0 anchored to `var`.
    pub fn new(var: &Var) -> (r: Idx)
        ensures
            r@ == (0nat, var@),
    {
        Idx(0, var.copy())
    }

    /// The same variable one binder further away.
    pub fn inc(&self) -> (r: Idx)
        requires
            self.0 < usize::MAX,
        ensures
            r@ == (self@.0 + 1, self@.1),
    {
        Idx(self.0 + 1, self.1.copy())
    }

    /// The same variable one binder closer; only defined above depth 0.
    pub fn dec(&self) -> (r: Idx)
        requires
            self.0 >= 1,
        ensures
            r@ == ((self@.0 - 1) as nat, self@.1),
    {
        Idx(self.0 - 1, self.1.copy())
    }

    /// Copy this index.
    pub fn copy(&self) -> (r: Idx)
        ensures
            r@ == self@,
    {
        Idx(self.0, self.1.copy())
    }

    /// The variable's name; the depth is not displayed.
    pub fn to_string(&self) -> (r: String)
        ensures
            r@ == self@.1,
    {
        self.1.to_string()
    }
}

impl VarIdx {
    /// A still-free occurrence of `var`.
    pub fn new_var(var: Var) -> (r: VarIdx)
        ensures
            r@ == Term::Free(var@),
    {
        VarIdx::Var(var)
    }

    /// An occurrence resolved to `idx`.
    pub fn new_idx(idx: Idx) -> (r: VarIdx)
        ensures
            r@ == Term::Bound(idx@.0, idx@.1),
    {
        VarIdx::Idx(idx)
    }

    /// The name of the variable, whether the occurrence is free or resolved.
    pub fn get_var(&self) -> (r: &Var)
        ensures
            r@ == self@.name(),
    {
        match self {
            VarIdx::Var(var) => var,
            VarIdx::Idx(Idx(_, var)) => var,
        }
    }

    /// Copy this occurrence.
    pub fn copy(&self) -> (r: VarIdx)
        ensures
            r@ == self@,
    {
        match self {
            VarIdx::Var(var) => VarIdx::Var(var.copy()),
            VarIdx::Idx(idx) => VarIdx::Idx(idx.copy()),
        }
    }

    /// The variable's name, as it is displayed.
    pub fn to_string(&self) -> (r: String)
        ensures
            r@ == self@.name(),
    {
        self.get_var().to_string()
    }
}

} // verus!
