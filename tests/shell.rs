use fluxo::buf::{Buf, Inp};
use fluxo::edt::{Cmd, Out, Status};
use fluxo::exp::Exp;
use fluxo::par::{Cat, Tkn};

#[test]
fn empty_buffer_means_nothing() {
    let buf = Buf::new();
    assert_eq!(buf.value(), Cmd::Noop);
    assert_eq!(buf.idx, 0);
    assert!(!buf.esc && !buf.trm);
}

#[test]
fn exit_and_quit_leave() {
    let mut buf = Buf::new();
    buf.raw = "exit".to_string();
    assert_eq!(buf.value(), Cmd::Exit);
    buf.raw = "quit".to_string();
    assert_eq!(buf.value(), Cmd::Exit);
}

#[test]
fn other_text_asks_for_help() {
    let mut buf = Buf::new();
    buf.raw = "exits".to_string();
    assert_eq!(buf.value(), Cmd::Help(None));
}

#[test]
fn inputs_compose_and_repeat() {
    let c = Inp::MoveLt.compose(Inp::Delete);
    assert_eq!(c, Inp::Compose(Box::new(Inp::MoveLt), Box::new(Inp::Delete)));
    let r = Inp::MoveRt.repeat(4);
    assert_eq!(r, Inp::Repeat(Box::new(Inp::MoveRt), 4));
}

#[test]
fn exit_help_has_alias() {
    let h = Cmd::Exit.help();
    assert_eq!(h, vec![
        ("exit", "Exit the integrated development environment"),
        ("quit", "Alias for “exit”"),
    ]);
}

#[test]
fn show_help_names_argument() {
    let h = Cmd::Show(Exp::get_kind_meta()).help();
    assert_eq!(h, vec![("show EXP", "Show the normalized form of the expression EXP")]);
}

#[test]
fn output_collects_messages() {
    let mut out = Out::msg(Status::Success, "one");
    out.append(Status::Failure, "two");
    assert_eq!(out.log, vec![(Status::Success, "one".to_string()), (Status::Failure, "two".to_string())]);
    assert!(!out.trm);
    assert!(Out::trm().trm);
    assert!(Out::new().log.is_empty());
}

#[test]
fn token_keeps_text_and_category() {
    let t = Tkn::new("λ", Cat::Str);
    assert_eq!(t.inp, Some("λ".to_string()));
    assert_eq!(t.cat, Cat::Str);
}
