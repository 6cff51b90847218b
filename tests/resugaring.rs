use pikelet::concrete::{self, Declaration, Literal, Pos, Span};
use pikelet::core_syntax::{
    Constant, Definition, Module, Name, Neutral, Scope, Term, Value, ValueScope, Var,
};
use pikelet::resugar::ResugarError;
use pikelet::{Prec, ToConcrete};

fn span() -> Span {
    Span { start: Pos(0), end: Pos(0) }
}

fn ident(s: &str) -> concrete::Term {
    concrete::Term::Var(Pos(0), s.to_string())
}

fn bool_ty() -> Term {
    Term::Constant(Constant::BoolType)
}

fn bound(d: u32) -> Term {
    Term::Var(Var::Bound(d, 0))
}

fn free(s: &str) -> Term {
    Term::Var(Var::Free(Name::User(s.to_string())))
}

fn scope(name: &str, ann: Term, body: Term) -> Scope {
    Scope { name: name.to_string(), ann: Box::new(ann), body: Box::new(body) }
}

fn pi(name: &str, ann: Term, body: Term) -> Term {
    Term::Pi(scope(name, ann, body))
}

fn lam(name: &str, ann: Term, body: Term) -> Term {
    Term::Lam(scope(name, ann, body))
}

fn record_type(fields: Vec<(&str, Term)>, end: Term) -> Term {
    let mut t = end;
    for (label, ann) in fields.into_iter().rev() {
        t = Term::RecordType(label.to_string(), Box::new(ann), Box::new(t));
    }
    t
}

fn record(fields: Vec<(&str, Term)>, end: Term) -> Term {
    let mut t = end;
    for (label, value) in fields.into_iter().rev() {
        t = Term::Record(label.to_string(), Box::new(value), Box::new(t));
    }
    t
}

fn names(n: &str) -> Vec<(Pos, String)> {
    vec![(Pos(0), n.to_string())]
}

fn parens(t: concrete::Term) -> concrete::Term {
    concrete::Term::Parens(span(), Box::new(t))
}

#[test]
fn bool_true_renders_as_identifier() {
    assert_eq!(Constant::Bool(true).to_concrete(), ident("true"));
    assert_eq!(Constant::Bool(false).to_concrete(), ident("false"));
}

#[test]
fn u32_constant_renders_as_int_literal() {
    assert_eq!(
        Constant::U32(42).to_concrete(),
        concrete::Term::Literal(span(), Literal::Int(42))
    );
}

#[test]
fn literals_and_type_names() {
    assert_eq!(
        Constant::String("hi".to_string()).to_concrete(),
        concrete::Term::Literal(span(), Literal::String("hi".to_string()))
    );
    assert_eq!(
        Constant::Char('c').to_concrete(),
        concrete::Term::Literal(span(), Literal::Char('c'))
    );
    assert_eq!(
        Constant::U64(u64::MAX).to_concrete(),
        concrete::Term::Literal(span(), Literal::Int(u64::MAX))
    );
    assert_eq!(Constant::I64Type.to_concrete(), ident("I64"));
    assert_eq!(Constant::F32Type.to_concrete(), ident("F32"));
    assert_eq!(Constant::StringType.to_concrete(), ident("String"));
}

#[test]
fn negative_signed_constant_widens_unsigned() {
    assert_eq!(
        Constant::I8(-1).to_concrete(),
        concrete::Term::Literal(span(), Literal::Int(u64::MAX))
    );
}

#[test]
fn constant_term_is_never_wrapped() {
    let t = Term::Constant(Constant::U8(7));
    assert_eq!(
        t.to_concrete_prec(Prec::ATOMIC),
        Ok(concrete::Term::Literal(span(), Literal::Int(7)))
    );
}

#[test]
fn non_dependent_pi_renders_as_arrow() {
    let t = pi("x", bool_ty(), bool_ty());
    assert_eq!(
        t.to_concrete(),
        Ok(concrete::Term::Arrow(Box::new(ident("Bool")), Box::new(ident("Bool"))))
    );
}

#[test]
fn dependent_pi_renders_named_parameter() {
    let body = Term::If(Box::new(bound(0)), Box::new(bool_ty()), Box::new(bool_ty()));
    let t = pi("x", bool_ty(), body);
    let expected = concrete::Term::Pi(
        Pos(0),
        vec![(names("x"), ident("Bool"))],
        Box::new(concrete::Term::If(
            Pos(0),
            Box::new(ident("x")),
            Box::new(ident("Bool")),
            Box::new(ident("Bool")),
        )),
    );
    assert_eq!(t.to_concrete(), Ok(expected));
}

#[test]
fn empty_record_type_renders_empty_record_node() {
    assert_eq!(
        Term::EmptyRecordType.to_concrete(),
        Ok(concrete::Term::RecordType(span(), vec![]))
    );
    assert_eq!(Term::EmptyRecord.to_concrete(), Ok(concrete::Term::Record(span(), vec![])));
}

#[test]
fn identity_definition_hoists_parameter() {
    let d = Definition {
        name: "f".to_string(),
        ann: pi("x", bool_ty(), bool_ty()),
        term: lam("x", bool_ty(), bound(0)),
    };
    let (claim, def) = d.to_concrete().unwrap();
    assert_eq!(
        claim,
        Declaration::Claim {
            name: (Pos(0), "f".to_string()),
            ann: concrete::Term::Arrow(Box::new(ident("Bool")), Box::new(ident("Bool"))),
        }
    );
    assert_eq!(
        def,
        Declaration::Definition {
            span: span(),
            name: "f".to_string(),
            params: vec![(names("x"), Some(Box::new(ident("Bool"))))],
            body: ident("x"),
        }
    );
}

#[test]
fn curried_definition_hoists_both_parameters() {
    let d = Definition {
        name: "k".to_string(),
        ann: pi("x", bool_ty(), pi("y", Term::Constant(Constant::U8Type), bool_ty())),
        term: lam("x", bool_ty(), lam("y", Term::Constant(Constant::U8Type), bound(1))),
    };
    let (_, def) = d.to_concrete().unwrap();
    assert_eq!(
        def,
        Declaration::Definition {
            span: span(),
            name: "k".to_string(),
            params: vec![
                (names("x"), Some(Box::new(ident("Bool")))),
                (names("y"), Some(Box::new(ident("U8")))),
            ],
            body: ident("x"),
        }
    );
}

#[test]
fn definition_without_lambda_has_no_parameters() {
    let d = Definition { name: "b".to_string(), ann: bool_ty(), term: free("t") };
    let (_, def) = d.to_concrete().unwrap();
    assert_eq!(
        def,
        Declaration::Definition { span: span(), name: "b".to_string(), params: vec![], body: ident("t") }
    );
}

#[test]
fn universe_zero_has_no_level() {
    let t = Term::Universe(0);
    assert_eq!(t.to_concrete(), Ok(concrete::Term::Universe(span(), None)));
    assert_eq!(t.to_concrete_prec(Prec::ATOMIC), Ok(concrete::Term::Universe(span(), None)));
}

#[test]
fn universe_level_is_shown_exactly() {
    assert_eq!(Term::Universe(1).to_concrete(), Ok(concrete::Term::Universe(span(), Some(1))));
    assert_eq!(
        Term::Universe(3).to_concrete_prec(Prec::ATOMIC),
        Ok(parens(concrete::Term::Universe(span(), Some(3))))
    );
    assert_eq!(
        Term::Universe(3).to_concrete_prec(Prec::APP),
        Ok(concrete::Term::Universe(span(), Some(3)))
    );
}

#[test]
fn parens_exactly_when_position_binds_tighter() {
    let f = || lam("x", bool_ty(), bound(0));
    let lam_out = || {
        concrete::Term::Lam(
            Pos(0),
            vec![(names("x"), Some(Box::new(ident("Bool"))))],
            Box::new(ident("x")),
        )
    };
    assert_eq!(f().to_concrete_prec(Prec::LAM), Ok(lam_out()));
    assert_eq!(f().to_concrete_prec(Prec::ANN), Ok(lam_out()));
    assert_eq!(f().to_concrete_prec(Prec::PI), Ok(parens(lam_out())));
    assert_eq!(f().to_concrete_prec(Prec::APP), Ok(parens(lam_out())));

    let app = || Term::App(Box::new(free("g")), Box::new(free("a")));
    let app_out = || concrete::Term::App(Box::new(ident("g")), vec![ident("a")]);
    assert_eq!(app().to_concrete_prec(Prec::APP), Ok(app_out()));
    assert_eq!(app().to_concrete_prec(Prec::ATOMIC), Ok(parens(app_out())));

    let arrow = || pi("x", bool_ty(), bool_ty());
    let arrow_out = || concrete::Term::Arrow(Box::new(ident("Bool")), Box::new(ident("Bool")));
    assert_eq!(arrow().to_concrete_prec(Prec::PI), Ok(arrow_out()));
    assert_eq!(arrow().to_concrete_prec(Prec::APP), Ok(parens(arrow_out())));
}

#[test]
fn ann_and_projection_positions() {
    let ann = Term::Ann(Box::new(free("a")), Box::new(bool_ty()));
    let ann_out = || concrete::Term::Ann(Box::new(ident("a")), Box::new(ident("Bool")));
    assert_eq!(ann.to_concrete_prec(Prec::ANN), Ok(ann_out()));
    assert_eq!(ann.to_concrete_prec(Prec::LAM), Ok(parens(ann_out())));

    let proj = Term::Proj(
        Box::new(Term::App(Box::new(free("g")), Box::new(free("a")))),
        "l".to_string(),
    );
    let expected = concrete::Term::Proj(
        Box::new(parens(concrete::Term::App(Box::new(ident("g")), vec![ident("a")]))),
        Pos(0),
        "l".to_string(),
    );
    assert_eq!(proj.to_concrete_prec(Prec::ATOMIC), Ok(expected));

    let plain = Term::Proj(Box::new(free("r")), "l".to_string());
    assert_eq!(
        plain.to_concrete(),
        Ok(concrete::Term::Proj(Box::new(ident("r")), Pos(0), "l".to_string()))
    );
}

#[test]
fn if_branches_at_app_position() {
    let inner = lam("y", bool_ty(), bound(0));
    let t = Term::If(Box::new(free("c")), Box::new(inner), Box::new(free("e")));
    let expected = || {
        let lam_out = concrete::Term::Lam(
            Pos(0),
            vec![(names("y"), Some(Box::new(ident("Bool"))))],
            Box::new(ident("y")),
        );
        concrete::Term::If(
            Pos(0),
            Box::new(ident("c")),
            Box::new(parens(lam_out)),
            Box::new(ident("e")),
        )
    };
    assert_eq!(t.to_concrete(), Ok(expected()));
    assert_eq!(
        Term::If(
            Box::new(free("c")),
            Box::new(lam("y", bool_ty(), bound(0))),
            Box::new(free("e"))
        )
        .to_concrete_prec(Prec::PI),
        Ok(parens(expected()))
    );
}

#[test]
fn record_type_chain_flattens_in_order() {
    let t = record_type(
        vec![("a", bool_ty()), ("b", Term::Constant(Constant::CharType)), ("c", Term::Universe(0))],
        Term::EmptyRecordType,
    );
    let expected = concrete::Term::RecordType(
        span(),
        vec![
            (Pos(0), "a".to_string(), Box::new(ident("Bool"))),
            (Pos(0), "b".to_string(), Box::new(ident("Char"))),
            (Pos(0), "c".to_string(), Box::new(concrete::Term::Universe(span(), None))),
        ],
    );
    assert_eq!(t.to_concrete_prec(Prec::ATOMIC), Ok(expected));
}

#[test]
fn record_chain_flattens_in_order() {
    let t = record(
        vec![("x", Term::Constant(Constant::U16(1))), ("y", free("v"))],
        Term::EmptyRecord,
    );
    let expected = concrete::Term::Record(
        span(),
        vec![
            (Pos(0), "x".to_string(), Box::new(concrete::Term::Literal(span(), Literal::Int(1)))),
            (Pos(0), "y".to_string(), Box::new(ident("v"))),
        ],
    );
    assert_eq!(t.to_concrete(), Ok(expected));
}

#[test]
fn malformed_record_type_chain_fails() {
    let t = record_type(vec![("a", bool_ty()), ("b", bool_ty())], Term::EmptyRecord);
    assert_eq!(t.to_concrete(), Err(ResugarError::MalformedRecordType));
    let u = record_type(vec![("a", bound(5))], free("z"));
    assert_eq!(u.to_concrete(), Err(ResugarError::MalformedRecordType));
}

#[test]
fn malformed_record_chain_fails() {
    let t = record(vec![("a", free("v"))], Term::Universe(0));
    assert_eq!(t.to_concrete(), Err(ResugarError::MalformedRecord));
}

#[test]
fn unbound_variable_fails() {
    assert_eq!(bound(0).to_concrete(), Err(ResugarError::UnboundVariable));
    let wrong_slot = lam("x", bool_ty(), Term::Var(Var::Bound(0, 1)));
    assert_eq!(wrong_slot.to_concrete(), Err(ResugarError::UnboundVariable));
    let too_deep = lam("x", bool_ty(), bound(1));
    assert_eq!(too_deep.to_concrete(), Err(ResugarError::UnboundVariable));
}

#[test]
fn bound_variables_take_their_binders_names() {
    let t = lam("x", bool_ty(), lam("y", bool_ty(), Term::App(Box::new(bound(1)), Box::new(bound(0)))));
    let inner = concrete::Term::Lam(
        Pos(0),
        vec![(names("y"), Some(Box::new(ident("Bool"))))],
        Box::new(concrete::Term::App(Box::new(ident("x")), vec![ident("y")])),
    );
    let expected = concrete::Term::Lam(
        Pos(0),
        vec![(names("x"), Some(Box::new(ident("Bool"))))],
        Box::new(inner),
    );
    assert_eq!(t.to_concrete(), Ok(expected));
}

#[test]
fn generated_names_render_with_their_number() {
    let t = Term::Var(Var::Free(Name::Gen(17)));
    assert_eq!(t.to_concrete(), Ok(ident("$17")));
    assert_eq!(Term::Var(Var::Free(Name::Gen(0))).to_concrete(), Ok(ident("$0")));
}

#[test]
fn module_pairs_claims_with_definitions() {
    let m = Module {
        name: "m".to_string(),
        definitions: vec![
            Definition { name: "a".to_string(), ann: bool_ty(), term: Term::Constant(Constant::Bool(true)) },
            Definition {
                name: "id".to_string(),
                ann: pi("x", bool_ty(), bool_ty()),
                term: lam("x", bool_ty(), bound(0)),
            },
        ],
    };
    let out = m.to_concrete().unwrap();
    assert_eq!(out.name, (Pos(0), "m".to_string()));
    assert_eq!(out.declarations.len(), 4);
    assert_eq!(
        out.declarations[0],
        Declaration::Claim { name: (Pos(0), "a".to_string()), ann: ident("Bool") }
    );
    assert_eq!(
        out.declarations[1],
        Declaration::Definition { span: span(), name: "a".to_string(), params: vec![], body: ident("true") }
    );
    assert!(matches!(&out.declarations[2], Declaration::Claim { name, .. } if name.1 == "id"));
    assert!(matches!(&out.declarations[3], Declaration::Definition { name, params, .. } if name == "id" && params.len() == 1));
}

#[test]
fn module_reports_first_failing_definition() {
    let m = Module {
        name: "m".to_string(),
        definitions: vec![
            Definition { name: "a".to_string(), ann: bool_ty(), term: free("t") },
            Definition { name: "b".to_string(), ann: bound(0), term: Term::EmptyRecord },
            Definition { name: "c".to_string(), ann: record(vec![], Term::EmptyRecordType), term: free("t") },
        ],
    };
    assert_eq!(m.to_concrete(), Err(ResugarError::UnboundVariable));
    let empty = Module { name: "e".to_string(), definitions: vec![] };
    assert_eq!(empty.to_concrete().unwrap().declarations.len(), 0);
}

#[test]
fn precedence_classes_are_ordered() {
    assert!(Prec::NO_WRAP < Prec::ANN);
    assert!(Prec::ANN < Prec::LAM);
    assert!(Prec::LAM < Prec::PI);
    assert!(Prec::PI < Prec::APP);
    assert!(Prec::APP < Prec::ATOMIC);
    assert!(Prec::LAM.is_looser_than(Prec::PI));
    assert!(!Prec::PI.is_looser_than(Prec::PI));
    assert_eq!(Prec::NO_WRAP.level(), -1);
    assert_eq!(Prec::ATOMIC.level(), 4);
}

#[test]
fn value_reads_back_before_rendering() {
    let v = Value::Pi(ValueScope {
        name: "x".to_string(),
        ann: Box::new(Value::Constant(Constant::BoolType)),
        body: Box::new(Value::Neutral(Neutral::App(
            Box::new(Neutral::Var(Var::Free(Name::User("P".to_string())))),
            Box::new(Value::Neutral(Neutral::Var(Var::Bound(0, 0)))),
        ))),
    });
    let expected = concrete::Term::Pi(
        Pos(0),
        vec![(names("x"), ident("Bool"))],
        Box::new(concrete::Term::App(Box::new(ident("P")), vec![ident("x")])),
    );
    assert_eq!(v.to_concrete(), Ok(expected));
    let universe = Value::Universe(2);
    assert_eq!(
        universe.to_concrete_prec(Prec::ATOMIC),
        Ok(parens(concrete::Term::Universe(span(), Some(2))))
    );
}

#[test]
fn neutral_reads_back_before_rendering() {
    let n = Neutral::Proj(
        Box::new(Neutral::If(
            Box::new(Neutral::Var(Var::Free(Name::User("b".to_string())))),
            Box::new(Value::EmptyRecord),
            Box::new(Value::Record(
                "a".to_string(),
                Box::new(Value::Constant(Constant::Bool(false))),
                Box::new(Value::EmptyRecord),
            )),
        )),
        "a".to_string(),
    );
    let expected = concrete::Term::Proj(
        Box::new(parens(concrete::Term::If(
            Pos(0),
            Box::new(ident("b")),
            Box::new(concrete::Term::Record(span(), vec![])),
            Box::new(concrete::Term::Record(
                span(),
                vec![(Pos(0), "a".to_string(), Box::new(ident("false")))],
            )),
        ))),
        Pos(0),
        "a".to_string(),
    );
    assert_eq!(n.to_concrete(), Ok(expected));
    let stuck = Neutral::Var(Var::Bound(0, 0));
    assert_eq!(stuck.to_concrete(), Err(ResugarError::UnboundVariable));
}
