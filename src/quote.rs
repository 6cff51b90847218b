use vstd::prelude::*;

use crate::core_syntax::{Constant, Name, Neutral, Scope, Term, Value, Var};

verus! {

/// The core term that reads back the value `v`.
pub open spec fn quote(v: Value) -> Term
    decreases v,
{
    match v {
        Value::Universe(level) => Term::Universe(level),
        Value::Constant(c) => Term::Constant(c),
        Value::Pi(s) => Term::Pi(
            Scope { name: s.name, ann: Box::new(quote(*s.ann)), body: Box::new(quote(*s.body)) },
        ),
        Value::Lam(s) => Term::Lam(
            Scope { name: s.name, ann: Box::new(quote(*s.ann)), body: Box::new(quote(*s.body)) },
        ),
        Value::RecordType(label, a, rest) => Term::RecordType(
            label,
            Box::new(quote(*a)),
            Box::new(quote(*rest)),
        ),
        Value::Record(label, a, rest) => Term::Record(
            label,
            Box::new(quote(*a)),
            Box::new(quote(*rest)),
        ),
        Value::EmptyRecordType => Term::EmptyRecordType,
        Value::EmptyRecord => Term::EmptyRecord,
        Value::Neutral(n) => quote_neutral(n),
    }
}

/// The core term that reads back the stuck computation `n`.
pub open spec fn quote_neutral(n: Neutral) -> Term
    decreases n,
{
    match n {
        Neutral::Var(x) => Term::Var(x),
        Neutral::App(f, a) => Term::App(Box::new(quote_neutral(*f)), Box::new(quote(*a))),
        Neutral::If(c, x, y) => Term::If(
            Box::new(quote_neutral(*c)),
            Box::new(quote(*x)),
            Box::new(quote(*y)),
        ),
        Neutral::Proj(e, label) => Term::Proj(Box::new(quote_neutral(*e)), label),
    }
}

/// A copy of the constant `c`.
pub fn copy_constant(c: &Constant) -> (r: Constant)
    ensures
        r == *c,
{
    match c {
        Constant::Bool(v) => Constant::Bool(*v),
        Constant::String(s) => Constant::String(s.clone()),
        Constant::Char(v) => Constant::Char(*v),
        Constant::U8(v) => Constant::U8(*v),
        Constant::U16(v) => Constant::U16(*v),
        Constant::U32(v) => Constant::U32(*v),
        Constant::U64(v) => Constant::U64(*v),
        Constant::I8(v) => Constant::I8(*v),
        Constant::I16(v) => Constant::I16(*v),
        Constant::I32(v) => Constant::I32(*v),
        Constant::I64(v) => Constant::I64(*v),
        Constant::BoolType => Constant::BoolType,
        Constant::StringType => Constant::StringType,
        Constant::CharType => Constant::CharType,
        Constant::U8Type => Constant::U8Type,
        Constant::U16Type => Constant::U16Type,
        Constant::U32Type => Constant::U32Type,
        Constant::U64Type => Constant::U64Type,
        Constant::I8Type => Constant::I8Type,
        Constant::I16Type => Constant::I16Type,
        Constant::I32Type => Constant::I32Type,
        Constant::I64Type => Constant::I64Type,
        Constant::F32Type => Constant::F32Type,
        Constant::F64Type => Constant::F64Type,
    }
}

/// A copy of the variable `x`.
pub fn copy_var(x: &Var) -> (r: Var)
    ensures
        r == *x,
{
    match x {
        Var::Free(Name::User(s)) => Var::Free(Name::User(s.clone())),
        Var::Free(Name::Gen(id)) => Var::Free(Name::Gen(*id)),
        Var::Bound(d, slot) => Var::Bound(*d, *slot),
    }
}

/// Reads the value `v` back into a core term.
pub fn quote_value(v: &Value) -> (r: Term)
    ensures
        r == quote(*v),
    decreases v,
{
    match v {
        Value::Universe(level) => Term::Universe(*level),
        Value::Constant(c) => Term::Constant(copy_constant(c)),
        Value::Pi(s) => Term::Pi(
            Scope {
                name: s.name.clone(),
                ann: Box::new(quote_value(&s.ann)),
                body: Box::new(quote_value(&s.body)),
            },
        ),
        Value::Lam(s) => Term::Lam(
            Scope {
                name: s.name.clone(),
                ann: Box::new(quote_value(&s.ann)),
                body: Box::new(quote_value(&s.body)),
            },
        ),
        Value::RecordType(label, a, rest) => Term::RecordType(
            label.clone(),
            Box::new(quote_value(a)),
            Box::new(quote_value(rest)),
        ),
        Value::Record(label, a, rest) => Term::Record(
            label.clone(),
            Box::new(quote_value(a)),
            Box::new(quote_value(rest)),
        ),
        Value::EmptyRecordType => Term::EmptyRecordType,
        Value::EmptyRecord => Term::EmptyRecord,
        Value::Neutral(n) => quote_stuck(n),
    }
}

/// Reads the stuck computation `n` back into a core term.
pub fn quote_stuck(n: &Neutral) -> (r: Term)
    ensures
        r == quote_neutral(*n),
    decreases n,
{
    match n {
        Neutral::Var(x) => Term::Var(copy_var(x)),
        Neutral::App(f, a) => Term::App(Box::new(quote_stuck(f)), Box::new(quote_value(a))),
        Neutral::If(c, x, y) => Term::If(
            Box::new(quote_stuck(c)),
            Box::new(quote_value(x)),
            Box::new(quote_value(y)),
        ),
        Neutral::Proj(e, label) => Term::Proj(Box::new(quote_stuck(e)), label.clone()),
    }
}

} // verus!
