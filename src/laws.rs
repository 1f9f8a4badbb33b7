//! Laws that relate the operations of the library, proved over their models.
use vstd::prelude::*;

use crate::term::{Env, Fault, PASS_LIMIT, Term, extend, normalize, reduced};

verus! {

/// Giving a variable the same type twice succeeds both times, and the second time changes
/// nothing.
pub proof fn law_put_same_twice(g: Env, x: Seq<char>, a: Term)
    requires
        extend(g, x, a) is Ok,
    ensures
        extend(g, x, a) == Ok::<Env, Fault>(g.insert(x, a)),
        extend(g.insert(x, a), x, a) == Ok::<Env, Fault>(g.insert(x, a)),
{
    assert(g.insert(x, a).insert(x, a) =~= g.insert(x, a));
}

/// Once a variable has a type, giving it another type fails with a redeclaration that
/// reports both types, and the context keeps the first.
pub proof fn law_put_conflict(g: Env, x: Seq<char>, a: Term, b: Term)
    requires
        extend(g, x, a) is Ok,
        a != b,
    ensures
        extend(g.insert(x, a), x, b) == Err::<Env, Fault>(Fault::Redecl(x, a, b)),
{
}

/// A normal form that reduction returns is a fixpoint of a pass and within the depth limit.
proof fn lemma_normalize_fixpoint(t: Term, fuel: nat)
    requires
        normalize(t, fuel) is Ok,
    ensures
        normalize(t, fuel)->Ok_0.pass() == normalize(t, fuel)->Ok_0,
        normalize(t, fuel)->Ok_0.depth() <= usize::MAX,
    decreases fuel,
{
    if fuel > 0 && t.depth() <= usize::MAX && t.pass() != t {
        lemma_normalize_fixpoint(t.pass(), (fuel - 1) as nat);
    }
}

/// Reduction is idempotent: where reduction of `t` succeeds, reducing its result gives
/// that result again.
pub proof fn law_reduce_idempotent(t: Term)
    requires
        reduced(t) is Ok,
    ensures
        reduced(reduced(t)->Ok_0) == reduced(t),
{
    lemma_normalize_fixpoint(t, PASS_LIMIT as nat);
}

} // verus!
