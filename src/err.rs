//! Why a judgment failed: structured error values and their text.
use vstd::prelude::*;
use vstd::string::*;

use crate::exp::Exp;
use crate::term::{Fault, Term, compat_message, show};
use crate::var::Var;

verus! {

/// Failure to derive a type, or to extend or consult a typing context.
#[derive(Debug, Clone, PartialEq, Eq)]
pub enum TypingErr {
    Generic(String),
    TypeCompatErr(TypeCompatErr),
    TypeUndefErr(TypeUndefErr),
    TypeUnknownErr(TypeUnknownErr),
    TypeRedeclErr(TypeRedeclErr),
}

/// An expression whose type is not among the accepted ones.
#[derive(Debug, Clone, PartialEq, Eq)]
pub struct TypeCompatErr {
    /// The expression.
    pub exp: Exp,
    /// Its type.
    pub typ: Exp,
    /// The accepted types (empty where none apply).
    pub acc: Vec<Exp>,
    /// Message explaining the failure.
    pub msg: String,
}

/// An expression that has no type.
#[derive(Debug, Clone, PartialEq, Eq)]
pub struct TypeUndefErr {
    /// The expression.
    pub exp: Exp,
}

/// A variable that has no type in the context.
#[derive(Debug, Clone, PartialEq, Eq)]
pub struct TypeUnknownErr {
    /// The variable.
    pub var: Var,
}

/// A variable given a type other than the one it already has.
#[derive(Debug, Clone, PartialEq, Eq)]
pub struct TypeRedeclErr {
    /// The variable.
    pub var: Var,
    /// The type it has.
    pub typ: Exp,
    /// The type it was given again.
    pub upd: Exp,
}

/// The models of a sequence of expressions.
pub open spec fn models(s: Seq<Exp>) -> Seq<Term> {
    s.map_values(|e: Exp| e@)
}

impl View for TypeCompatErr {
    type V = Fault;

    open spec fn view(&self) -> Fault {
        Fault::Compat(self.exp@, self.typ@, models(self.acc@), self.msg@)
    }
}

impl View for TypeUndefErr {
    type V = Fault;

    open spec fn view(&self) -> Fault {
        Fault::Undef(self.exp@)
    }
}

impl View for TypeUnknownErr {
    type V = Fault;

    open spec fn view(&self) -> Fault {
        Fault::Unknown(self.var@)
    }
}

impl View for TypeRedeclErr {
    type V = Fault;

    open spec fn view(&self) -> Fault {
        Fault::Redecl(self.var@, self.typ@, self.upd@)
    }
}

impl View for TypingErr {
    type V = Fault;

    open spec fn view(&self) -> Fault {
        match self {
            TypingErr::Generic(s) => Fault::Generic(s@),
            TypingErr::TypeCompatErr(e) => e@,
            TypingErr::TypeUndefErr(e) => e@,
            TypingErr::TypeUnknownErr(e) => e@,
            TypingErr::TypeRedeclErr(e) => e@,
        }
    }
}

/// The texts of `ts`, separated by commas.
pub open spec fn joined(ts: Seq<Term>) -> Seq<char>
    decreases ts.len(),
{
    if ts.len() == 0 {
        Seq::empty()
    } else if ts.len() == 1 {
        show(ts[0], false, false)
    } else {
        joined(ts.drop_last()) + ", "@ + show(ts.last(), false, false)
    }
}

/// The text of a failure, one line per fact.
pub open spec fn fault_text(f: Fault) -> Seq<char> {
    match f {
        Fault::Generic(s) => s,
        Fault::Compat(e, t, acc, msg) => if acc.len() == 0 {
            msg + "\n"@
        } else {
            ":type "@ + show(e, false, false) + "\n"@ + "    = "@ + show(t, false, false) + "\n"@
                + "    ∉ {"@ + joined(acc) + "}\n"@
        },
        Fault::Undef(e) => ":type "@ + show(e, false, false) + "\n"@ + "    = ⊥\n"@,
        Fault::Unknown(v) => ":type "@ + v + " = ?\n"@,
        Fault::Redecl(v, t, u) => ":type "@ + v + "\n"@ + "    = "@ + show(t, false, false)
            + "\n"@ + "    ≠ "@ + show(u, false, false) + "\n"@,
    }
}

impl TypeCompatErr {
    /// `exp`, whose type `typ` is none of `acc`.
    pub fn new(exp: &Exp, typ: &Exp, acc: &[&Exp]) -> (r: TypeCompatErr)
        ensures
            r@ == Fault::Compat(exp@, typ@, acc@.map_values(|e: &Exp| e@), compat_message(exp@)),
    {
        let mut copies: Vec<Exp> = Vec::new();
        let mut i: usize = 0;
        while i < acc.len()
            invariant
                i <= acc@.len(),
                models(copies@) =~= acc@.take(i as int).map_values(|e: &Exp| e@),
            decreases acc@.len() - i,
        {
            let ghost prev = copies@;
            let c = acc[i].copy();
            copies.push(c);
            assert(models(copies@) =~= models(prev).push(acc@[i as int]@));
            i = i + 1;
            assert(acc@.take(i as int) =~= acc@.take(i - 1).push(acc@[i - 1]));
            assert(acc@.take(i as int).map_values(|e: &Exp| e@) =~= acc@.take(i - 1).map_values(
                |e: &Exp| e@,
            ).push(acc@[i - 1]@));
        }
        assert(acc@.take(acc@.len() as int) =~= acc@);
        let mut msg = String::from_str(":type ");
        let text = exp.to_string();
        msg.append(text.as_str());
        msg.append(" does not have the requisite form!");
        TypeCompatErr { exp: exp.copy(), typ: typ.copy(), acc: copies, msg }
    }

    /// The text of this failure: the message alone where no type is accepted, else the
    /// expression, its type and the accepted types.
    pub fn to_string(&self) -> (r: String)
        ensures
            r@ == fault_text(self@),
    {
        if self.acc.len() == 0 {
            let mut s = self.msg.clone();
            s.append("\n");
            s
        } else {
            let mut s = String::from_str(":type ");
            s.append(self.exp.to_string().as_str());
            s.append("\n");
            s.append("    = ");
            s.append(self.typ.to_string().as_str());
            s.append("\n");
            s.append("    ∉ {");
            let mut i: usize = 0;
            while i < self.acc.len()
                invariant
                    i <= self.acc@.len(),
                    self.acc@.len() > 0,
                    s@ == ":type "@ + show(self.exp@, false, false) + "\n"@ + "    = "@ + show(
                        self.typ@,
                        false,
                        false,
                    ) + "\n"@ + "    ∉ {"@ + joined(models(self.acc@).take(i as int)),
                decreases self.acc@.len() - i,
            {
                if i > 0 {
                    s.append(", ");
                }
                s.append(self.acc[i].to_string().as_str());
                i = i + 1;
                proof {
                    let ts = models(self.acc@).take(i as int);
                    assert(ts.drop_last() =~= models(self.acc@).take(i - 1));
                    if i == 1 {
                        assert(models(self.acc@).take(0) =~= Seq::<Term>::empty());
                    }
                }
            }
            assert(models(self.acc@).take(self.acc@.len() as int) =~= models(self.acc@));
            s.append("}\n");
            s
        }
    }
}

impl TypeUndefErr {
    /// `exp` has no type.
    pub fn new(exp: &Exp) -> (r: TypeUndefErr)
        ensures
            r@ == Fault::Undef(exp@),
    {
        TypeUndefErr { exp: exp.copy() }
    }

    /// The text of this failure.
    pub fn to_string(&self) -> (r: String)
        ensures
            r@ == fault_text(self@),
    {
        let mut s = String::from_str(":type ");
        s.append(self.exp.to_string().as_str());
        s.append("\n");
        s.append("    = ⊥\n");
        s
    }
}

impl TypeUnknownErr {
    /// `var` has no type in the context.
    pub fn new(var: &Var) -> (r: TypeUnknownErr)
        ensures
            r@ == Fault::Unknown(var@),
    {
        TypeUnknownErr { var: var.copy() }
    }

    /// The text of this failure.
    pub fn to_string(&self) -> (r: String)
        ensures
            r@ == fault_text(self@),
    {
        let mut s = String::from_str(":type ");
        s.append(self.var.0.as_str());
        s.append(" = ?\n");
        s
    }
}

impl TypeRedeclErr {
    /// `var` has the type `typ` and was given `upd`.
    pub fn new(var: &Var, typ: &Exp, upd: &Exp) -> (r: TypeRedeclErr)
        ensures
            r@ == Fault::Redecl(var@, typ@, upd@),
    {
        TypeRedeclErr { var: var.copy(), typ: typ.copy(), upd: upd.copy() }
    }

    /// The text of this failure.
    pub fn to_string(&self) -> (r: String)
        ensures
            r@ == fault_text(self@),
    {
        let mut s = String::from_str(":type ");
        s.append(self.var.0.as_str());
        s.append("\n");
        s.append("    = ");
        s.append(self.typ.to_string().as_str());
        s.append("\n");
        s.append("    ≠ ");
        s.append(self.upd.to_string().as_str());
        s.append("\n");
        s
    }
}

impl TypingErr {
    /// The text of this failure.
    pub fn to_string(&self) -> (r: String)
        ensures
            r@ == fault_text(self@),
    {
        match self {
            TypingErr::Generic(s) => s.clone(),
            TypingErr::TypeCompatErr(e) => e.to_string(),
            TypingErr::TypeUndefErr(e) => e.to_string(),
            TypingErr::TypeUnknownErr(e) => e.to_string(),
            TypingErr::TypeRedeclErr(e) => e.to_string(),
        }
    }
}

impl Default for TypingErr {
    fn default() -> (r: TypingErr)
        ensures
            r@ == Fault::Generic("generic typing error"@),
    {
        TypingErr::Generic(String::from_str("generic typing error"))
    }
}

} // verus!
