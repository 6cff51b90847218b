use vstd::prelude::*;

use crate::concrete::{self, no_pos, no_span, parens_if, Field, LamGroup, Literal, Pos, Span};
use crate::core_syntax::{Constant, Name, Term, Var};
use crate::prec::Prec;

verus! {

/// Why a core term has no concrete rendering.
#[derive(Debug, Copy, Clone, PartialEq, Eq, Structural)]
pub enum ResugarError {
    /// A bound variable refers past every enclosing binder: the term is not
    /// locally closed.
    UnboundVariable,
    /// A chain of record type fields does not end in the empty record type.
    MalformedRecordType,
    /// A chain of record fields does not end in the empty record.
    MalformedRecord,
}

/// The first of two errors in evaluation order.
pub open spec fn either(a: Option<ResugarError>, b: Option<ResugarError>) -> Option<ResugarError> {
    if a is Some {
        a
    } else {
        b
    }
}

/// The precedence of the concrete construct that a core term becomes.
pub open spec fn natural_prec(t: Term) -> Prec {
    match t {
        Term::Ann(..) => Prec::ANN,
        Term::Universe(level) => if level == 0 {
            Prec::ATOMIC
        } else {
            Prec::APP
        },
        Term::Pi(_) => Prec::PI,
        Term::Lam(_) => Prec::LAM,
        Term::App(..) => Prec::APP,
        Term::If(..) => Prec::LAM,
        _ => Prec::ATOMIC,
    }
}

/// Whether `t` refers to the variable bound `depth` scopes outside it.
pub open spec fn mentions(t: Term, depth: int) -> bool
    decreases t,
{
    match t {
        Term::Ann(a, b) => mentions(*a, depth) || mentions(*b, depth),
        Term::Var(Var::Bound(d, slot)) => d == depth && slot == 0,
        Term::Pi(s) => mentions(*s.ann, depth) || mentions(*s.body, depth + 1),
        Term::Lam(s) => mentions(*s.ann, depth) || mentions(*s.body, depth + 1),
        Term::App(f, a) => mentions(*f, depth) || mentions(*a, depth),
        Term::If(c, x, y) => mentions(*c, depth) || mentions(*x, depth) || mentions(*y, depth),
        Term::RecordType(_, a, rest) => mentions(*a, depth) || mentions(*rest, depth),
        Term::Record(_, a, rest) => mentions(*a, depth) || mentions(*rest, depth),
        Term::Proj(e, _) => mentions(*e, depth),
        _ => false,
    }
}

/// Whether `t` is a chain of record type links (`is_type`) or of record
/// links (`!is_type`) that ends in the matching empty marker.
pub open spec fn chain_ok(t: Term, is_type: bool) -> bool
    decreases t,
{
    match t {
        Term::RecordType(_, _, rest) => is_type && chain_ok(*rest, is_type),
        Term::Record(_, _, rest) => !is_type && chain_ok(*rest, is_type),
        Term::EmptyRecordType => is_type,
        Term::EmptyRecord => !is_type,
        _ => false,
    }
}

/// The labels of the links at the head of a record chain, in order.
pub open spec fn chain_labels(t: Term) -> Seq<String>
    decreases t,
{
    match t {
        Term::RecordType(label, _, rest) => seq![label] + chain_labels(*rest),
        Term::Record(label, _, rest) => seq![label] + chain_labels(*rest),
        _ => seq![],
    }
}

/// The first error met when rendering `t` under `depth` enclosing binders.
pub open spec fn first_error(t: Term, depth: int) -> Option<ResugarError>
    decreases t, 1int,
{
    match t {
        Term::Ann(a, b) => either(first_error(*a, depth), first_error(*b, depth)),
        Term::Var(Var::Bound(d, slot)) => if slot == 0 && d < depth {
            None
        } else {
            Some(ResugarError::UnboundVariable)
        },
        Term::Pi(s) => either(first_error(*s.ann, depth), first_error(*s.body, depth + 1)),
        Term::Lam(s) => either(first_error(*s.ann, depth), first_error(*s.body, depth + 1)),
        Term::App(f, a) => either(first_error(*f, depth), first_error(*a, depth)),
        Term::If(c, x, y) => either(
            first_error(*c, depth),
            either(first_error(*x, depth), first_error(*y, depth)),
        ),
        Term::RecordType(..) => if chain_ok(t, true) {
            chain_error(t, depth)
        } else {
            Some(ResugarError::MalformedRecordType)
        },
        Term::Record(..) => if chain_ok(t, false) {
            chain_error(t, depth)
        } else {
            Some(ResugarError::MalformedRecord)
        },
        Term::Proj(e, _) => first_error(*e, depth),
        _ => None,
    }
}

/// The first error met when rendering the fields of a record chain.
pub open spec fn chain_error(t: Term, depth: int) -> Option<ResugarError>
    decreases t, 0int,
{
    match t {
        Term::RecordType(_, a, rest) => either(first_error(*a, depth), chain_error(*rest, depth)),
        Term::Record(_, a, rest) => either(first_error(*a, depth), chain_error(*rest, depth)),
        _ => None,
    }
}

/// The decimal digits of `n`.
pub open spec fn decimal(n: nat) -> Seq<char>
    decreases n,
{
    let digit = seq!['0', '1', '2', '3', '4', '5', '6', '7', '8', '9'][(n % 10) as int];
    if n < 10 {
        seq![digit]
    } else {
        decimal(n / 10) + seq![digit]
    }
}

/// The text that a free variable is displayed by.
pub open spec fn name_text(n: Name) -> Seq<char> {
    match n {
        Name::User(s) => s@,
        Name::Gen(id) => seq!['$'] + decimal(id as nat),
    }
}

/// The identifier that a primitive type constant is displayed by.
pub open spec fn primitive_ident(c: Constant) -> Seq<char> {
    match c {
        Constant::BoolType => "Bool"@,
        Constant::StringType => "String"@,
        Constant::CharType => "Char"@,
        Constant::U8Type => "U8"@,
        Constant::U16Type => "U16"@,
        Constant::U32Type => "U32"@,
        Constant::U64Type => "U64"@,
        Constant::I8Type => "I8"@,
        Constant::I16Type => "I16"@,
        Constant::I32Type => "I32"@,
        Constant::I64Type => "I64"@,
        Constant::F32Type => "F32"@,
        _ => "F64"@,
    }
}

/// Whether `b` is a variable node displaying `text`.
pub open spec fn is_ident(b: concrete::Term, text: Seq<char>) -> bool {
    b is Var && b->Var_0 == no_pos() && b->Var_1@ == text
}

/// Whether `b` is an integer literal node holding `v`.
pub open spec fn is_int(b: concrete::Term, v: u64) -> bool {
    b == concrete::Term::Literal(no_span(), Literal::Int(v))
}

/// Whether `b` is the rendering of the constant `c`.
pub open spec fn constant_renders(c: Constant, b: concrete::Term) -> bool {
    match c {
        Constant::Bool(v) => is_ident(b, if v { "true"@ } else { "false"@ }),
        Constant::String(s) => b == concrete::Term::Literal(no_span(), Literal::String(s)),
        Constant::Char(ch) => b == concrete::Term::Literal(no_span(), Literal::Char(ch)),
        Constant::U8(v) => is_int(b, v as u64),
        Constant::U16(v) => is_int(b, v as u64),
        Constant::U32(v) => is_int(b, v as u64),
        Constant::U64(v) => is_int(b, v),
        Constant::I8(v) => is_int(b, v as u64),
        Constant::I16(v) => is_int(b, v as u64),
        Constant::I32(v) => is_int(b, v as u64),
        Constant::I64(v) => is_int(b, v as u64),
        _ => is_ident(b, primitive_ident(c)),
    }
}

/// Relies on `ToString` for `u32`, through its `Display`: the decimal digits
/// of `n`, with no sign and no leading zeros.
#[verifier::external_body]
fn decimal_string(n: u32) -> (r: String)
    ensures
        r@ == decimal(n as nat),
{
    n.to_string()
}

/// The text of a free variable's name.
pub fn name_display(n: &Name) -> (r: String)
    ensures
        r@ == name_text(*n),
{
    match n {
        Name::User(s) => s.clone(),
        Name::Gen(id) => {
            proof {
                reveal_strlit("$");
            }
            let digits = decimal_string(*id);
            let r = "$".to_owned().concat(digits.as_str());
            assert(r@ =~= seq!['$'] + decimal(*id as nat));
            r
        },
    }
}

fn ident(text: &str) -> (r: concrete::Term)
    ensures
        is_ident(r, text@),
{
    concrete::Term::Var(Pos(0), text.to_owned())
}

fn int_literal(v: u64) -> (r: concrete::Term)
    ensures
        is_int(r, v),
{
    concrete::Term::Literal(Span { start: Pos(0), end: Pos(0) }, Literal::Int(v))
}

/// Renders a primitive constant.
pub fn resugar_constant(c: &Constant) -> (r: concrete::Term)
    ensures
        constant_renders(*c, r),
{
    proof {
        reveal_strlit("true");
        reveal_strlit("false");
        reveal_strlit("Bool");
        reveal_strlit("String");
        reveal_strlit("Char");
        reveal_strlit("U8");
        reveal_strlit("U16");
        reveal_strlit("U32");
        reveal_strlit("U64");
        reveal_strlit("I8");
        reveal_strlit("I16");
        reveal_strlit("I32");
        reveal_strlit("I64");
        reveal_strlit("F32");
        reveal_strlit("F64");
    }
    let span = Span { start: Pos(0), end: Pos(0) };
    match c {
        Constant::Bool(true) => ident("true"),
        Constant::Bool(false) => ident("false"),
        Constant::String(s) => concrete::Term::Literal(span, Literal::String(s.clone())),
        Constant::Char(ch) => concrete::Term::Literal(span, Literal::Char(*ch)),
        Constant::U8(v) => int_literal(*v as u64),
        Constant::U16(v) => int_literal(*v as u64),
        Constant::U32(v) => int_literal(*v as u64),
        Constant::U64(v) => int_literal(*v),
        Constant::I8(v) => int_literal(*v as u64),
        Constant::I16(v) => int_literal(*v as u64),
        Constant::I32(v) => int_literal(*v as u64),
        Constant::I64(v) => int_literal(*v as u64),
        Constant::BoolType => ident("Bool"),
        Constant::StringType => ident("String"),
        Constant::CharType => ident("Char"),
        Constant::U8Type => ident("U8"),
        Constant::U16Type => ident("U16"),
        Constant::U32Type => ident("U32"),
        Constant::U64Type => ident("U64"),
        Constant::I8Type => ident("I8"),
        Constant::I16Type => ident("I16"),
        Constant::I32Type => ident("I32"),
        Constant::I64Type => ident("I64"),
        Constant::F32Type => ident("F32"),
        Constant::F64Type => ident("F64"),
    }
}

/// Whether `out` renders `t` at a position of precedence `prec`, where `env`
/// holds the names of the enclosing binders, innermost last: `out` is the
/// bare rendering of `t`, in parentheses exactly when `t`'s construct binds
/// looser than the position asks.
pub open spec fn renders(t: Term, env: Seq<String>, prec: Prec, out: concrete::Term) -> bool
    decreases t, 2int,
{
    if natural_prec(t).binds_looser(prec) {
        out is Parens && out->Parens_0 == no_span() && bare_renders(t, env, *out->Parens_1)
    } else {
        bare_renders(t, env, out)
    }
}

/// Whether `b` renders `t`, before any parentheses are added round it.
pub open spec fn bare_renders(t: Term, env: Seq<String>, b: concrete::Term) -> bool
    decreases t, 1int,
{
    match t {
        Term::Ann(x, ty) => b is Ann && renders(*x, env, Prec::LAM, *b->Ann_0) && renders(
            *ty,
            env,
            Prec::ANN,
            *b->Ann_1,
        ),
        Term::Universe(level) => b == concrete::Term::Universe(
            no_span(),
            if level == 0 {
                None
            } else {
                Some(level)
            },
        ),
        Term::Constant(c) => constant_renders(c, b),
        Term::Var(Var::Free(n)) => is_ident(b, name_text(n)),
        Term::Var(Var::Bound(d, slot)) => slot == 0 && d < env.len() && b == concrete::Term::Var(
            no_pos(),
            env[env.len() - 1 - d],
        ),
        Term::Pi(s) => if mentions(*s.body, 0) {
            &&& b is Pi
            &&& b->Pi_0 == no_pos()
            &&& b->Pi_1@.len() == 1
            &&& b->Pi_1@[0].0@ == seq![(no_pos(), s.name)]
            &&& renders(*s.ann, env, Prec::APP, b->Pi_1@[0].1)
            &&& renders(*s.body, env.push(s.name), Prec::LAM, *b->Pi_2)
        } else {
            &&& b is Arrow
            &&& renders(*s.ann, env, Prec::APP, *b->Arrow_0)
            &&& renders(*s.body, env.push(s.name), Prec::LAM, *b->Arrow_1)
        },
        Term::Lam(s) => {
            &&& b is Lam
            &&& b->Lam_0 == no_pos()
            &&& b->Lam_1@.len() == 1
            &&& b->Lam_1@[0].0@ == seq![(no_pos(), s.name)]
            &&& b->Lam_1@[0].1 is Some
            &&& renders(*s.ann, env, Prec::LAM, *b->Lam_1@[0].1->Some_0)
            &&& renders(*s.body, env.push(s.name), Prec::LAM, *b->Lam_2)
        },
        Term::App(f, a) => {
            &&& b is App
            &&& b->App_1@.len() == 1
            &&& renders(*f, env, Prec::NO_WRAP, *b->App_0)
            &&& renders(*a, env, Prec::NO_WRAP, b->App_1@[0])
        },
        Term::If(c, x, y) => {
            &&& b is If
            &&& b->If_0 == no_pos()
            &&& renders(*c, env, Prec::APP, *b->If_1)
            &&& renders(*x, env, Prec::APP, *b->If_2)
            &&& renders(*y, env, Prec::APP, *b->If_3)
        },
        Term::RecordType(..) | Term::EmptyRecordType => {
            &&& chain_ok(t, true)
            &&& b is RecordType
            &&& b->RecordType_0 == no_span()
            &&& fields_render(t, env, b->RecordType_1@, 0)
        },
        Term::Record(..) | Term::EmptyRecord => {
            &&& chain_ok(t, false)
            &&& b is Record
            &&& b->Record_0 == no_span()
            &&& fields_render(t, env, b->Record_1@, 0)
        },
        Term::Proj(e, label) => {
            &&& b is Proj
            &&& renders(*e, env, Prec::ATOMIC, *b->Proj_0)
            &&& b->Proj_1 == no_pos()
            &&& b->Proj_2 == label
        },
    }
}

/// Whether `fs`, from index `i` to its end, renders the links of the record
/// chain `t` one field per link, in order.
pub open spec fn fields_render(t: Term, env: Seq<String>, fs: Seq<Field>, i: int) -> bool
    decreases t, 0int,
{
    match t {
        Term::RecordType(label, a, rest) | Term::Record(label, a, rest) => {
            &&& 0 <= i < fs.len()
            &&& fs[i].0 == no_pos()
            &&& fs[i].1 == label
            &&& renders(*a, env, Prec::NO_WRAP, *fs[i].2)
            &&& fields_render(*rest, env, fs, i + 1)
        },
        _ => i == fs.len(),
    }
}

/// What rendering `t` under the binders `env` at precedence `prec` gives:
/// the first error if there is one, else a rendering.
pub open spec fn outcome(
    t: Term,
    env: Seq<String>,
    prec: Prec,
    r: Result<concrete::Term, ResugarError>,
) -> bool {
    match r {
        Ok(out) => first_error(t, env.len() as int) is None && renders(t, env, prec, out),
        Err(e) => first_error(t, env.len() as int) == Some(e),
    }
}

proof fn lemma_mentions_beyond(t: Term, depth: int)
    requires
        depth > u32::MAX,
    ensures
        !mentions(t, depth),
    decreases t,
{
    match t {
        Term::Ann(a, b) => {
            lemma_mentions_beyond(*a, depth);
            lemma_mentions_beyond(*b, depth);
        },
        Term::Pi(s) => {
            lemma_mentions_beyond(*s.ann, depth);
            lemma_mentions_beyond(*s.body, depth + 1);
        },
        Term::Lam(s) => {
            lemma_mentions_beyond(*s.ann, depth);
            lemma_mentions_beyond(*s.body, depth + 1);
        },
        Term::App(f, a) => {
            lemma_mentions_beyond(*f, depth);
            lemma_mentions_beyond(*a, depth);
        },
        Term::If(c, x, y) => {
            lemma_mentions_beyond(*c, depth);
            lemma_mentions_beyond(*x, depth);
            lemma_mentions_beyond(*y, depth);
        },
        Term::RecordType(_, a, rest) | Term::Record(_, a, rest) => {
            lemma_mentions_beyond(*a, depth);
            lemma_mentions_beyond(*rest, depth);
        },
        Term::Proj(e, _) => lemma_mentions_beyond(*e, depth),
        _ => {},
    }
}

/// The precedence of the concrete construct that `t` becomes.
pub fn natural_prec_of(t: &Term) -> (r: Prec)
    ensures
        r == natural_prec(*t),
{
    match t {
        Term::Ann(..) => Prec::ANN,
        Term::Universe(level) => if *level == 0 {
            Prec::ATOMIC
        } else {
            Prec::APP
        },
        Term::Pi(_) => Prec::PI,
        Term::Lam(_) => Prec::LAM,
        Term::App(..) => Prec::APP,
        Term::If(..) => Prec::LAM,
        _ => Prec::ATOMIC,
    }
}

/// Whether `t` refers to the variable bound `depth` scopes outside it.
pub fn term_mentions(t: &Term, depth: u32) -> (r: bool)
    ensures
        r == mentions(*t, depth as int),
    decreases t,
{
    match t {
        Term::Ann(a, b) => term_mentions(a, depth) || term_mentions(b, depth),
        Term::Var(Var::Bound(d, slot)) => *d == depth && *slot == 0,
        Term::Pi(s) | Term::Lam(s) => {
            if term_mentions(&s.ann, depth) {
                true
            } else if depth == u32::MAX {
                proof {
                    lemma_mentions_beyond(*s.body, depth + 1);
                }
                false
            } else {
                term_mentions(&s.body, depth + 1)
            }
        },
        Term::App(f, a) => term_mentions(f, depth) || term_mentions(a, depth),
        Term::If(c, x, y) => term_mentions(c, depth) || term_mentions(x, depth) || term_mentions(
            y,
            depth,
        ),
        Term::RecordType(_, a, rest) | Term::Record(_, a, rest) => term_mentions(a, depth)
            || term_mentions(rest, depth),
        Term::Proj(e, _) => term_mentions(e, depth),
        _ => false,
    }
}

/// Whether `t` is a record chain of the kind `is_type` that ends in its
/// empty marker.
pub fn is_closed_chain(t: &Term, is_type: bool) -> (r: bool)
    ensures
        r == chain_ok(*t, is_type),
    decreases t,
{
    match t {
        Term::RecordType(_, _, rest) => is_type && is_closed_chain(rest, is_type),
        Term::Record(_, _, rest) => !is_type && is_closed_chain(rest, is_type),
        Term::EmptyRecordType => is_type,
        Term::EmptyRecord => !is_type,
        _ => false,
    }
}

fn bound_name(env: &Vec<String>, d: u32, slot: u32) -> (r: Result<concrete::Term, ResugarError>)
    ensures
        outcome(Term::Var(Var::Bound(d, slot)), env@, Prec::NO_WRAP, r),
{
    if slot == 0 && (d as usize) < env.len() {
        let name = env[env.len() - 1 - d as usize].clone();
        Ok(concrete::Term::Var(Pos(0), name))
    } else {
        Err(ResugarError::UnboundVariable)
    }
}

/// Renders `t` at a position of precedence `prec`, under binders named by
/// `env`, innermost last.
pub fn resugar_term(t: &Term, env: &mut Vec<String>, prec: Prec) -> (r: Result<
    concrete::Term,
    ResugarError,
>)
    ensures
        final(env)@ == old(env)@,
        outcome(*t, old(env)@, prec, r),
    decreases t, 1int,
{
    let ghost env0 = env@;
    let wrap = natural_prec_of(t).is_looser_than(prec);
    match t {
        Term::Ann(x, ty) => {
            let x2 = match resugar_term(x, env, Prec::LAM) {
                Ok(v) => v,
                Err(e) => return Err(e),
            };
            let ty2 = match resugar_term(ty, env, Prec::ANN) {
                Ok(v) => v,
                Err(e) => return Err(e),
            };
            {
                let bare = concrete::Term::Ann(Box::new(x2), Box::new(ty2));
                assert(bare_renders(*t, env0, bare));
                Ok(parens_if(wrap, bare))
            }
        },
        Term::Universe(level) => {
            let shown = if *level == 0 {
                None
            } else {
                Some(*level)
            };
            let span = Span { start: Pos(0), end: Pos(0) };
            {
                let bare = concrete::Term::Universe(span, shown);
                assert(bare_renders(*t, env0, bare));
                Ok(parens_if(wrap, bare))
            }
        },
        Term::Constant(c) => {
            let bare = resugar_constant(c);
            assert(bare_renders(*t, env0, bare));
            Ok(bare)
        },
        Term::Var(Var::Free(n)) => {
            let bare = concrete::Term::Var(Pos(0), name_display(n));
            assert(bare_renders(*t, env0, bare));
            Ok(bare)
        },
        Term::Var(Var::Bound(d, slot)) => bound_name(env, *d, *slot),
        Term::Pi(s) => {
            let dependent = term_mentions(&s.body, 0);
            let ann = match resugar_term(&s.ann, env, Prec::APP) {
                Ok(v) => v,
                Err(e) => return Err(e),
            };
            env.push(s.name.clone());
            assert(env@ == env0.push(s.name));
            let body = resugar_term(&s.body, env, Prec::LAM);
            let _ = env.pop();
            proof {
                assert(env@ =~= env0);
            }
            let body = match body {
                Ok(v) => v,
                Err(e) => return Err(e),
            };
            let bare = if dependent {
                let names = vec![(Pos(0), s.name.clone())];
                assert(names@ =~= seq![(no_pos(), s.name)]);
                let groups = vec![(names, ann)];
                assert(groups@.len() == 1 && groups@[0].0@ == seq![(no_pos(), s.name)]);
                concrete::Term::Pi(Pos(0), groups, Box::new(body))
            } else {
                concrete::Term::Arrow(Box::new(ann), Box::new(body))
            };
            assert(bare_renders(*t, env0, bare));
            Ok(parens_if(wrap, bare))
        },
        Term::Lam(s) => {
            let ann = match resugar_term(&s.ann, env, Prec::LAM) {
                Ok(v) => v,
                Err(e) => return Err(e),
            };
            env.push(s.name.clone());
            assert(env@ == env0.push(s.name));
            let body = resugar_term(&s.body, env, Prec::LAM);
            let _ = env.pop();
            proof {
                assert(env@ =~= env0);
            }
            let body = match body {
                Ok(v) => v,
                Err(e) => return Err(e),
            };
            let names = vec![(Pos(0), s.name.clone())];
            assert(names@ =~= seq![(no_pos(), s.name)]);
            let group: LamGroup = (names, Some(Box::new(ann)));
            {
                let bare = concrete::Term::Lam(Pos(0), vec![group], Box::new(body));
                assert(bare_renders(*t, env0, bare));
                Ok(parens_if(wrap, bare))
            }
        },
        Term::App(f, a) => {
            let f2 = match resugar_term(f, env, Prec::NO_WRAP) {
                Ok(v) => v,
                Err(e) => return Err(e),
            };
            let a2 = match resugar_term(a, env, Prec::NO_WRAP) {
                Ok(v) => v,
                Err(e) => return Err(e),
            };
            {
                let bare = concrete::Term::App(Box::new(f2), vec![a2]);
                assert(bare_renders(*t, env0, bare));
                Ok(parens_if(wrap, bare))
            }
        },
        Term::If(c, x, y) => {
            let c2 = match resugar_term(c, env, Prec::APP) {
                Ok(v) => v,
                Err(e) => return Err(e),
            };
            let x2 = match resugar_term(x, env, Prec::APP) {
                Ok(v) => v,
                Err(e) => return Err(e),
            };
            let y2 = match resugar_term(y, env, Prec::APP) {
                Ok(v) => v,
                Err(e) => return Err(e),
            };
            let bare = concrete::Term::If(Pos(0), Box::new(c2), Box::new(x2), Box::new(y2));
            assert(bare_renders(*t, env0, bare));
            Ok(parens_if(wrap, bare))
        },
        Term::RecordType(..) | Term::EmptyRecordType => {
            if !is_closed_chain(t, true) {
                return Err(ResugarError::MalformedRecordType);
            }
            let mut fields: Vec<Field> = Vec::new();
            match resugar_fields(t, env, &mut fields) {
                Ok(()) => {
                    let bare = concrete::Term::RecordType(Span { start: Pos(0), end: Pos(0) }, fields);
                    assert(bare_renders(*t, env0, bare));
                    Ok(bare)
                },
                Err(e) => Err(e),
            }
        },
        Term::Record(..) | Term::EmptyRecord => {
            if !is_closed_chain(t, false) {
                return Err(ResugarError::MalformedRecord);
            }
            let mut fields: Vec<Field> = Vec::new();
            match resugar_fields(t, env, &mut fields) {
                Ok(()) => {
                    let bare = concrete::Term::Record(Span { start: Pos(0), end: Pos(0) }, fields);
                    assert(bare_renders(*t, env0, bare));
                    Ok(bare)
                },
                Err(e) => Err(e),
            }
        },
        Term::Proj(e, label) => {
            let e2 = match resugar_term(e, env, Prec::ATOMIC) {
                Ok(v) => v,
                Err(err) => return Err(err),
            };
            let bare = concrete::Term::Proj(Box::new(e2), Pos(0), label.clone());
            assert(bare_renders(*t, env0, bare));
            Ok(bare)
        },
    }
}

/// Appends to `fields` the renderings of the links of the record chain `t`.
fn resugar_fields(t: &Term, env: &mut Vec<String>, fields: &mut Vec<Field>) -> (r: Result<
    (),
    ResugarError,
>)
    requires
        chain_ok(*t, true) || chain_ok(*t, false),
    ensures
        final(env)@ == old(env)@,
        r is Ok ==> {
            &&& chain_error(*t, old(env)@.len() as int) is None
            &&& old(fields)@.len() <= final(fields)@.len()
            &&& final(fields)@.subrange(0, old(fields)@.len() as int) == old(fields)@
            &&& fields_render(*t, old(env)@, final(fields)@, old(fields)@.len() as int)
        },
        r is Err ==> chain_error(*t, old(env)@.len() as int) == Some(r->Err_0),
    decreases t, 0int,
{
    match t {
        Term::RecordType(label, a, rest) | Term::Record(label, a, rest) => {
            let a2 = match resugar_term(a, env, Prec::NO_WRAP) {
                Ok(v) => v,
                Err(e) => return Err(e),
            };
            let ghost before = fields@;
            fields.push((Pos(0), label.clone(), Box::new(a2)));
            let ghost pushed = fields@;
            let r = resugar_fields(rest, env, fields);
            proof {
                if r is Ok {
                    assert(fields@.subrange(0, pushed.len() as int) == pushed);
                    assert(fields@[before.len() as int] == pushed[before.len() as int]);
                    assert(fields@.subrange(0, before.len() as int) =~= pushed.subrange(
                        0,
                        before.len() as int,
                    ));
                    assert(pushed.subrange(0, before.len() as int) =~= before);
                }
            }
            r
        },
        _ => Ok(()),
    }
}

} // verus!
