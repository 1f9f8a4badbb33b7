use fluxo::ast::{Ctx, Exp, Idx, Var, VarIdx};
use fluxo::err::{TypeCompatErr, TypeRedeclErr, TypeUndefErr, TypeUnknownErr, TypingErr};

fn var(name: &str) -> Exp {
    Exp::new_var(Var::new(name))
}

fn star() -> Exp {
    Exp::get_type_meta()
}

fn boxed() -> Exp {
    Exp::get_kind_meta()
}

fn lam(name: &str, typ: Exp, body: Exp) -> Exp {
    Exp::new_abs(Var::new(name), typ, body)
}

fn pi(name: &str, typ: Exp, body: Exp) -> Exp {
    Exp::new_for(Var::new(name), typ, body)
}

fn app(fst: Exp, snd: Exp) -> Exp {
    Exp::new_app(fst, snd)
}

fn ctx_of(entries: Vec<(&str, Exp)>) -> Ctx {
    let mut ctx = Ctx::new();
    for (name, typ) in entries {
        ctx.put(&Var::new(name), &typ).unwrap();
    }
    ctx
}

#[test]
fn renders_abstraction() {
    assert_eq!(lam("x", var("t"), var("x")).to_string(), "λx : t . x");
}

#[test]
fn renders_pi_type() {
    assert_eq!(pi("x", var("t"), var("x")).to_string(), "Πx : t . x");
}

#[test]
fn renders_application() {
    assert_eq!(app(var("x"), var("y")).to_string(), "x y");
}

#[test]
fn renders_abstraction_applied_with_parentheses() {
    let e = app(lam("y", var("b"), var("y")), var("t"));
    assert_eq!(e.to_string(), "(λy : b . y) t");
}

#[test]
fn renders_right_nested_application_with_parentheses() {
    let e = app(var("x"), app(var("y"), var("z")));
    assert_eq!(e.to_string(), "x (y z)");
}

#[test]
fn renders_left_nested_application_without_parentheses() {
    let e = app(app(var("x"), var("y")), var("z"));
    assert_eq!(e.to_string(), "x y z");
}

#[test]
fn renders_binder_body_and_sorts() {
    let e = app(var("f"), lam("x", star(), pi("y", boxed(), var("x"))));
    assert_eq!(e.to_string(), "f λx : * . Πy : □ . x");
}

#[test]
fn indexes_bound_occurrences_by_depth() {
    let inner = app(lam("w", star(), app(var("w"), var("y"))), var("m"));
    let e = app(var("x"), pi("y", star(), inner));
    let Exp::App(_, pi_part) = &e else { panic!("not an application") };
    let Exp::For(_, _, body) = pi_part.as_ref() else { panic!("not a Π type") };
    let Exp::App(lam_part, m) = body.as_ref() else { panic!("not an application") };
    let Exp::Abs(_, _, lam_body) = lam_part.as_ref() else { panic!("not a λ") };
    let Exp::App(w, y) = lam_body.as_ref() else { panic!("not an application") };
    assert_eq!(**w, Exp::Var(VarIdx::new_idx(Idx(0, Var::new("w")))));
    assert_eq!(**y, Exp::Var(VarIdx::new_idx(Idx(1, Var::new("y")))));
    assert_eq!(**m, var("m"));
}

#[test]
fn indexing_stops_at_shadowing_binder() {
    let e = lam("x", star(), lam("x", star(), var("x")));
    let Exp::Abs(_, _, outer_body) = &e else { panic!("not a λ") };
    let Exp::Abs(_, _, inner_body) = outer_body.as_ref() else { panic!("not a λ") };
    assert_eq!(**inner_body, Exp::Var(VarIdx::new_idx(Idx(0, Var::new("x")))));
}

#[test]
fn derives_type_of_nested_abstraction() {
    let ctx = ctx_of(vec![("w", star())]);
    let e = lam("x", star(), lam("m", star(), app(lam("k", star(), var("k")), var("m"))));
    let t = e.calculate_type(&ctx).unwrap();
    assert_eq!(t, pi("x", star(), pi("m", star(), star())));
    assert_eq!(t.to_string(), "Πx : * . Πm : * . *");
}

#[test]
fn put_same_type_twice_succeeds() {
    let mut ctx = Ctx::new();
    let x = Var::new("x");
    assert!(ctx.put(&x, &star()).is_ok());
    assert!(ctx.put(&x, &star()).is_ok());
    assert_eq!(ctx.get(&x).unwrap(), &star());
}

#[test]
fn put_other_type_fails_with_both_types() {
    let mut ctx = Ctx::new();
    let x = Var::new("x");
    ctx.put(&x, &star()).unwrap();
    let err = ctx.put(&x, &boxed()).unwrap_err();
    assert_eq!(err, TypeRedeclErr::new(&x, &star(), &boxed()));
    assert_eq!(err.typ, star());
    assert_eq!(err.upd, boxed());
    assert_eq!(ctx.get(&x).unwrap(), &star());
}

#[test]
fn get_absent_variable_fails() {
    let ctx = Ctx::new();
    let err = ctx.get(&Var::new("q")).unwrap_err();
    assert_eq!(err, TypeUnknownErr::new(&Var::new("q")));
}

#[test]
fn extend_leaves_receiver_unchanged() {
    let ctx = Ctx::new();
    let x = Var::new("x");
    let ext = ctx.extend(&x, &star()).unwrap();
    assert_eq!(ext.get(&x).unwrap(), &star());
    assert!(ctx.get(&x).is_err());
}

#[test]
fn extend_with_other_type_fails() {
    let ctx = ctx_of(vec![("x", star())]);
    let err = ctx.extend(&Var::new("x"), &boxed()).unwrap_err();
    assert_eq!(err, TypeRedeclErr::new(&Var::new("x"), &star(), &boxed()));
}

#[test]
fn remove_drops_only_that_variable() {
    let ctx = ctx_of(vec![("x", star()), ("y", boxed())]);
    let rest = ctx.remove(&Var::new("x")).unwrap();
    assert!(rest.get(&Var::new("x")).is_err());
    assert_eq!(rest.get(&Var::new("y")).unwrap(), &boxed());
    assert_eq!(ctx.get(&Var::new("x")).unwrap(), &star());
}

#[test]
fn remove_absent_variable_fails() {
    let ctx = Ctx::new();
    let err = ctx.remove(&Var::new("x")).unwrap_err();
    assert_eq!(err, TypeUnknownErr::new(&Var::new("x")));
}

#[test]
fn reduce_is_idempotent() {
    let ctx = ctx_of(vec![("T", star()), ("a", var("T")), ("b", var("T"))]);
    let e = app(app(lam("x", var("T"), lam("z", var("T"), var("x"))), var("a")), var("b"));
    assert!(e.calculate_type(&ctx).is_ok());
    let once = e.reduce(&ctx).unwrap();
    let twice = once.clone().reduce(&ctx).unwrap();
    assert_eq!(once, twice);
}

#[test]
fn type_of_star_is_box() {
    assert_eq!(star().calculate_type(&Ctx::new()).unwrap(), boxed());
}

#[test]
fn type_of_box_is_undefined() {
    let err = boxed().calculate_type(&Ctx::new()).unwrap_err();
    assert_eq!(err, TypingErr::TypeUndefErr(TypeUndefErr::new(&boxed())));
    assert_eq!(err.to_string(), ":type □\n    = ⊥\n");
}

#[test]
fn reduces_identity_application() {
    let ctx = Ctx::new();
    let e = app(lam("x", var("T"), var("x")), var("y"));
    assert_eq!(e.reduce(&ctx).unwrap(), var("y"));
}

#[test]
fn reduces_across_two_binders() {
    let ctx = Ctx::new();
    let e = app(app(lam("x", var("T"), lam("z", var("T"), var("x"))), var("a")), var("b"));
    assert_eq!(e.reduce(&ctx).unwrap(), var("a"));
}

#[test]
fn reduces_under_binders() {
    let ctx = Ctx::new();
    let e = lam("y", star(), app(lam("x", star(), var("x")), var("y")));
    let n = e.reduce(&ctx).unwrap();
    assert_eq!(n.to_string(), "λy : * . y");
}

#[test]
fn reduction_of_growing_term_gives_up() {
    let ctx = Ctx::new();
    let grow = || lam("x", star(), app(app(var("x"), var("x")), var("x")));
    let err = app(grow(), grow()).reduce(&ctx).unwrap_err();
    assert_eq!(
        err,
        TypingErr::Generic("reduction found no normal form within the pass limit".to_string())
    );
}

#[test]
fn self_application_is_its_own_pass_fixpoint() {
    let ctx = Ctx::new();
    let omega = || lam("x", star(), app(var("x"), var("x")));
    let e = app(omega(), omega());
    assert_eq!(e.clone().reduce(&ctx).unwrap(), e);
}

#[test]
fn type_of_variable_is_its_declared_type() {
    let ctx = ctx_of(vec![("A", star()), ("a", var("A"))]);
    assert_eq!(var("a").calculate_type(&ctx).unwrap(), var("A"));
    assert_eq!(var("A").calculate_type(&ctx).unwrap(), star());
}

#[test]
fn type_of_unknown_variable_fails() {
    let err = var("q").calculate_type(&Ctx::new()).unwrap_err();
    assert_eq!(err, TypingErr::TypeUnknownErr(TypeUnknownErr::new(&Var::new("q"))));
    assert_eq!(err.to_string(), ":type q = ?\n");
}

#[test]
fn type_of_pi_is_type_of_codomain() {
    let ctx = Ctx::new();
    assert_eq!(pi("x", star(), star()).calculate_type(&ctx).unwrap(), boxed());
    assert_eq!(pi("x", star(), var("x")).calculate_type(&ctx).unwrap(), star());
}

#[test]
fn application_of_non_function_fails() {
    let err = app(star(), star()).calculate_type(&Ctx::new()).unwrap_err();
    let expected = TypeCompatErr::new(&star(), &boxed(), &[]);
    assert_eq!(err, TypingErr::TypeCompatErr(expected));
    assert_eq!(err.to_string(), ":type * does not have the requisite form!\n");
}

#[test]
fn application_to_wrong_argument_type_fails() {
    let ctx = ctx_of(vec![("A", star())]);
    let e = app(lam("x", var("A"), var("x")), star());
    let err = e.calculate_type(&ctx).unwrap_err();
    let expected = TypeCompatErr::new(&star(), &boxed(), &[&var("A")]);
    assert_eq!(err, TypingErr::TypeCompatErr(expected));
    assert_eq!(err.to_string(), ":type *\n    = □\n    ∉ {A}\n");
}

#[test]
fn application_result_is_substituted_codomain() {
    let ctx = ctx_of(vec![("A", star()), ("a", var("A"))]);
    let e = app(lam("x", var("A"), var("x")), var("a"));
    assert_eq!(e.calculate_type(&ctx).unwrap(), var("A"));
}

#[test]
fn declared_type_must_have_a_sort() {
    let ctx = ctx_of(vec![("v", lam("z", star(), var("z")))]);
    let err = var("v").calculate_type(&ctx).unwrap_err();
    let expected = TypeCompatErr::new(
        &lam("z", star(), var("z")),
        &pi("z", star(), star()),
        &[&star(), &boxed()],
    );
    assert_eq!(err, TypingErr::TypeCompatErr(expected));
    assert_eq!(err.to_string(), ":type λz : * . z\n    = Πz : * . *\n    ∉ {*, □}\n");
}

#[test]
fn rebinding_a_name_with_another_type_fails() {
    let ctx = ctx_of(vec![("x", star())]);
    let err = lam("x", boxed(), var("x")).calculate_type(&ctx).unwrap_err();
    assert_eq!(err, TypingErr::TypeRedeclErr(TypeRedeclErr::new(&Var::new("x"), &star(), &boxed())));
    assert_eq!(err.to_string(), ":type x\n    = *\n    ≠ □\n");
}

#[test]
fn compat_error_message_names_expression() {
    let err = TypeCompatErr::new(&app(var("f"), var("a")), &star(), &[]);
    assert_eq!(err.msg, ":type f a does not have the requisite form!");
    assert!(err.acc.is_empty());
}

#[test]
fn default_typing_error_is_generic() {
    let err = TypingErr::default();
    assert_eq!(err.to_string(), "generic typing error");
}

#[test]
fn index_depth_moves_by_one() {
    let i = Idx::new(&Var::new("v"));
    assert_eq!(i, Idx(0, Var::new("v")));
    let j = i.inc().inc();
    assert_eq!(j, Idx(2, Var::new("v")));
    assert_eq!(j.dec(), Idx(1, Var::new("v")));
}

#[test]
fn occurrence_name_is_kept_when_resolved() {
    let free = VarIdx::new_var(Var::new("v"));
    let bound = VarIdx::new_idx(Idx(3, Var::new("v")));
    assert_eq!(free.get_var(), &Var::new("v"));
    assert_eq!(bound.get_var(), &Var::new("v"));
    assert_eq!(bound.to_string(), "v");
}

#[test]
fn index_resolves_free_occurrence_in_place() {
    let mut e = app(var("v"), lam("u", star(), var("v")));
    e.index(&Idx::new(&Var::new("v")));
    assert_eq!(e.to_string(), "v λu : * . v");
    let Exp::App(fst, snd) = &e else { panic!("not an application") };
    assert_eq!(**fst, Exp::Var(VarIdx::new_idx(Idx(0, Var::new("v")))));
    let Exp::Abs(_, _, body) = snd.as_ref() else { panic!("not a λ") };
    assert_eq!(**body, Exp::Var(VarIdx::new_idx(Idx(1, Var::new("v")))));
}
