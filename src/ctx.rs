//! Typing contexts: which type each variable has.
use vstd::prelude::*;

use crate::err::{TypeRedeclErr, TypeUnknownErr};
use crate::exp::Exp;
use crate::term::{Env, Fault, Term, extend};
use crate::var::Var;

verus! {

/// A typing context, usually written Γ: each variable has at most one type. Operations that
/// return a context leave the one they are called on as it is.
#[derive(Debug)]
pub struct Ctx {
    entries: Vec<(Var, Exp)>,
}

/// The context that a list of entries denotes: a later entry wins over an earlier one.
pub open spec fn env_of(s: Seq<(Var, Exp)>) -> Env
    decreases s.len(),
{
    if s.len() == 0 {
        Map::empty()
    } else {
        env_of(s.drop_last()).insert(s.last().0@, s.last().1@)
    }
}

/// No two entries name the same variable.
pub open spec fn names_unique(s: Seq<(Var, Exp)>) -> bool {
    forall|i: int, j: int| 0 <= i < j < s.len() ==> s[i].0@ != s[j].0@
}

/// A name has a type exactly where an entry names it, and then the type of that entry.
proof fn lemma_env_of(s: Seq<(Var, Exp)>)
    requires
        names_unique(s),
    ensures
        forall|k: Seq<char>| #[trigger]
            env_of(s).contains_key(k) <==> exists|i: int| 0 <= i < s.len() && s[i].0@ == k,
        forall|i: int| 0 <= i < s.len() ==> #[trigger] env_of(s)[s[i].0@] == s[i].1@,
    decreases s.len(),
{
    if s.len() > 0 {
        let t = s.drop_last();
        let last = s.len() - 1;
        lemma_env_of(t);
        assert(env_of(s) == env_of(t).insert(s[last].0@, s[last].1@));
        assert forall|k: Seq<char>| #[trigger]
            env_of(s).contains_key(k) <==> exists|i: int| 0 <= i < s.len() && s[i].0@ == k by {
            if env_of(s).contains_key(k) {
                if k == s[last].0@ {
                    assert(s[last].0@ == k);
                } else {
                    assert(env_of(t).contains_key(k));
                    let i = choose|i: int| 0 <= i < t.len() && t[i].0@ == k;
                    assert(t[i] == s[i]);
                    assert(s[i].0@ == k);
                }
            }
            if exists|i: int| 0 <= i < s.len() && s[i].0@ == k {
                let i = choose|i: int| 0 <= i < s.len() && s[i].0@ == k;
                if i < last {
                    assert(t[i] == s[i]);
                    assert(env_of(t).contains_key(t[i].0@));
                }
            }
        }
        assert forall|i: int| 0 <= i < s.len() implies #[trigger] env_of(s)[s[i].0@] == s[i].1@ by {
            if i < last {
                assert(t[i] == s[i]);
                assert(s[i].0@ != s[last].0@);
                assert(env_of(t)[t[i].0@] == t[i].1@);
            }
        }
    }
}

/// Lists whose entries have the same views denote the same context.
proof fn lemma_env_of_same(s: Seq<(Var, Exp)>, t: Seq<(Var, Exp)>)
    requires
        s.len() == t.len(),
        forall|j: int| 0 <= j < s.len() ==> (#[trigger] s[j]).0@ == t[j].0@ && s[j].1@ == t[j].1@,
    ensures
        env_of(s) == env_of(t),
    decreases s.len(),
{
    if s.len() > 0 {
        lemma_env_of_same(s.drop_last(), t.drop_last());
    }
}

impl View for Ctx {
    type V = Env;

    closed spec fn view(&self) -> Env {
        env_of(self.entries@)
    }
}

impl Ctx {
    #[verifier::type_invariant]
    closed spec fn inv(self) -> bool {
        names_unique(self.entries@)
    }

    /// The empty context.
    pub fn new() -> (r: Ctx)
        ensures
            r@ == Map::<Seq<char>, Term>::empty(),
    {
        Ctx { entries: Vec::new() }
    }

    /// A copy of this context.
    pub fn copy(&self) -> (r: Ctx)
        ensures
            r@ == self@,
    {
        Ctx { entries: self.copy_entries() }
    }

    /// A copy of the entries of this context.
    fn copy_entries(&self) -> (r: Vec<(Var, Exp)>)
        ensures
            r@.len() == self.entries@.len(),
            forall|j: int| 0 <= j < r@.len() ==> (#[trigger] r@[j]).0@ == self.entries@[j].0@
                && r@[j].1@ == self.entries@[j].1@,
            names_unique(r@),
            env_of(r@) == self@,
    {
        proof {
            use_type_invariant(self);
        }
        let mut entries: Vec<(Var, Exp)> = Vec::new();
        let mut i: usize = 0;
        while i < self.entries.len()
            invariant
                i <= self.entries@.len(),
                entries@.len() == i,
                forall|j: int| 0 <= j < i ==> (#[trigger] entries@[j]).0@ == self.entries@[j].0@
                    && entries@[j].1@ == self.entries@[j].1@,
            decreases self.entries@.len() - i,
        {
            let e = &self.entries[i];
            entries.push((e.0.copy(), e.1.copy()));
            i = i + 1;
        }
        proof {
            lemma_env_of_same(entries@, self.entries@);
            assert forall|a: int, b: int| 0 <= a < b < entries@.len() implies entries@[a].0@
                != entries@[b].0@ by {
                assert(self.entries@[a].0@ != self.entries@[b].0@);
            }
        }
        entries
    }

    /// Where the entry of `var` stands, if there is one.
    fn find(&self, var: &Var) -> (r: Option<usize>)
        ensures
            match r {
                Some(i) => i < self.entries@.len() && self.entries@[i as int].0@ == var@,
                None => forall|j: int| 0 <= j < self.entries@.len() ==> self.entries@[j].0@ != var@,
            },
    {
        let mut i: usize = 0;
        while i < self.entries.len()
            invariant
                i <= self.entries@.len(),
                forall|j: int| 0 <= j < i ==> self.entries@[j].0@ != var@,
            decreases self.entries@.len() - i,
        {
            if self.entries[i].0.same(var) {
                return Some(i);
            }
            i = i + 1;
        }
        None
    }

    /// Give `var` the type `typ`: this fails where `var` has another type, and changes
    /// nothing where it has this one.
    pub fn put(&mut self, var: &Var, typ: &Exp) -> (r: Result<(), TypeRedeclErr>)
        ensures
            match r {
                Ok(_) => extend(old(self)@, var@, typ@) == Ok::<Env, Fault>(final(self)@),
                Err(e) => extend(old(self)@, var@, typ@) == Err::<Env, Fault>(e@) && final(self)@
                    == old(self)@,
            },
    {
        proof {
            use_type_invariant(&*self);
            lemma_env_of(self.entries@);
        }
        match self.find(var) {
            Some(i) => {
                let old = &self.entries[i].1;
                if old.same(typ) {
                    assert(self@.insert(var@, typ@) =~= self@);
                    Ok(())
                } else {
                    Err(TypeRedeclErr::new(var, old, typ))
                }
            },
            None => {
                let mut entries = self.copy_entries();
                let ghost before = entries@;
                proof {
                    lemma_env_of(before);
                    assert(!env_of(before).contains_key(var@));
                }
                entries.push((var.copy(), typ.copy()));
                assert(entries@.drop_last() =~= before);
                assert forall|a: int, b: int| 0 <= a < b < entries@.len() implies entries@[a].0@
                    != entries@[b].0@ by {
                    if b == entries@.len() - 1 {
                        assert(before[a] == entries@[a]);
                    } else {
                        assert(before[a] == entries@[a]);
                        assert(before[b] == entries@[b]);
                    }
                }
                *self = Ctx { entries };
                Ok(())
            },
        }
    }

    /// The type of `var`, failing where it has none.
    pub fn get(&self, var: &Var) -> (r: Result<&Exp, TypeUnknownErr>)
        ensures
            match r {
                Ok(t) => self@.contains_key(var@) && t@ == self@[var@],
                Err(e) => !self@.contains_key(var@) && e@ == Fault::Unknown(var@),
            },
    {
        proof {
            use_type_invariant(self);
            lemma_env_of(self.entries@);
        }
        match self.find(var) {
            Some(i) => Ok(&self.entries[i].1),
            None => Err(TypeUnknownErr::new(var)),
        }
    }

    /// This context with `var` given the type `typ`, failing where `var` has another type;
    /// this context stays as it is.
    pub fn extend(&self, var: &Var, typ: &Exp) -> (r: Result<Ctx, TypeRedeclErr>)
        ensures
            match r {
                Ok(c) => extend(self@, var@, typ@) == Ok::<Env, Fault>(c@),
                Err(e) => extend(self@, var@, typ@) == Err::<Env, Fault>(e@),
            },
    {
        let mut can = self.copy();
        match can.put(var, typ) {
            Ok(_) => Ok(can),
            Err(e) => Err(e),
        }
    }

    /// This context without `var`, failing where `var` has no type; this context stays as it
    /// is.
    pub fn remove(&self, var: &Var) -> (r: Result<Ctx, TypeUnknownErr>)
        ensures
            match r {
                Ok(c) => self@.contains_key(var@) && c@ == self@.remove(var@),
                Err(e) => !self@.contains_key(var@) && e@ == Fault::Unknown(var@),
            },
    {
        proof {
            use_type_invariant(self);
            lemma_env_of(self.entries@);
        }
        match self.find(var) {
            Some(i) => {
                let mut entries = self.copy_entries();
                let ghost before = entries@;
                let _ = entries.remove(i);
                proof {
                    let after = entries@;
                    assert(after =~= before.remove(i as int));
                    assert forall|a: int, b: int| 0 <= a < b < after.len() implies after[a].0@
                        != after[b].0@ by {
                        let a2 = if a < i { a } else { a + 1 };
                        let b2 = if b < i { b } else { b + 1 };
                        assert(after[a] == before[a2]);
                        assert(after[b] == before[b2]);
                    }
                    lemma_env_of(before);
                    lemma_env_of(after);
                    assert forall|k: Seq<char>| #[trigger] env_of(after).contains_key(k)
                        <==> env_of(before).remove(var@).contains_key(k) by {
                        if env_of(after).contains_key(k) {
                            let j = choose|j: int| 0 <= j < after.len() && after[j].0@ == k;
                            if j < i {
                                assert(before[j] == after[j]);
                            } else {
                                assert(before[j + 1] == after[j]);
                            }
                        }
                        if env_of(before).remove(var@).contains_key(k) {
                            let j = choose|j: int| 0 <= j < before.len() && before[j].0@ == k;
                            if j < i {
                                assert(after[j] == before[j]);
                            } else {
                                assert(j != i);
                                assert(after[j - 1] == before[j]);
                            }
                        }
                    }
                    assert forall|k: Seq<char>| #[trigger] env_of(after).contains_key(k)
                        implies env_of(after)[k] == env_of(before)[k] by {
                        let j = choose|j: int| 0 <= j < after.len() && after[j].0@ == k;
                        if j < i {
                            assert(before[j] == after[j]);
                        } else {
                            assert(before[j + 1] == after[j]);
                        }
                    }
                    assert(env_of(after) =~= env_of(before).remove(var@));
                }
                Ok(Ctx { entries })
            },
            None => Err(TypeUnknownErr::new(var)),
        }
    }
}

impl Clone for Ctx {
    fn clone(&self) -> Self {
        self.copy()
    }
}

impl Default for Ctx {
    fn default() -> (r: Ctx)
        ensures
            r@ == Map::<Seq<char>, Term>::empty(),
    {
        Ctx::new()
    }
}

} // verus!
