use vstd::prelude::*;

verus! {

/// A byte offset into source text.
#[derive(Debug, Copy, Clone, PartialEq, Eq, Structural)]
pub struct Pos(pub u32);

/// A range of source text.
#[derive(Debug, Copy, Clone, PartialEq, Eq, Structural)]
pub struct Span {
    pub start: Pos,
    pub end: Pos,
}

/// The position given to nodes that stem from no source text.
pub open spec fn no_pos() -> Pos {
    Pos(0)
}

/// The span given to nodes that stem from no source text.
pub open spec fn no_span() -> Span {
    Span { start: Pos(0), end: Pos(0) }
}

/// A literal.
#[derive(Debug, PartialEq, Eq)]
pub enum Literal {
    String(String),
    Char(char),
    Int(u64),
}

/// A group of names sharing one type annotation in a lambda telescope.
pub type LamGroup = (Vec<(Pos, String)>, Option<Box<Term>>);

/// A group of names sharing one type in a pi telescope.
pub type PiGroup = (Vec<(Pos, String)>, Term);

/// A labelled field of a record or record type.
pub type Field = (Pos, String, Box<Term>);

/// A term of the surface syntax.
#[derive(Debug, PartialEq, Eq)]
pub enum Term {
    /// A term in parentheses.
    Parens(Span, Box<Term>),
    /// A term ascribed a type.
    Ann(Box<Term>, Box<Term>),
    /// A universe, with its level unless it is the lowest one.
    Universe(Span, Option<u32>),
    Literal(Span, Literal),
    Var(Pos, String),
    /// A dependent function type with a telescope of parameters.
    Pi(Pos, Vec<PiGroup>, Box<Term>),
    /// A function with a telescope of parameters.
    Lam(Pos, Vec<LamGroup>, Box<Term>),
    /// A non-dependent function type.
    Arrow(Box<Term>, Box<Term>),
    /// An application of a function to arguments.
    App(Box<Term>, Vec<Term>),
    If(Pos, Box<Term>, Box<Term>, Box<Term>),
    RecordType(Span, Vec<Field>),
    Record(Span, Vec<Field>),
    /// The projection of a field.
    Proj(Box<Term>, Pos, String),
}

/// A top-level declaration.
#[derive(Debug, PartialEq, Eq)]
pub enum Declaration {
    /// A claim of the type of a name.
    Claim { name: (Pos, String), ann: Term },
    /// A definition with parameters in its header.
    Definition { span: Span, name: String, params: Vec<LamGroup>, body: Term },
}

/// A module of declarations.
#[derive(Debug, PartialEq, Eq)]
pub struct Module {
    pub name: (Pos, String),
    pub declarations: Vec<Declaration>,
}

/// Wraps `inner` in parentheses when `should_wrap` holds.
pub fn parens_if(should_wrap: bool, inner: Term) -> (r: Term)
    ensures
        should_wrap ==> r == Term::Parens(no_span(), Box::new(inner)),
        !should_wrap ==> r == inner,
{
    if should_wrap {
        Term::Parens(Span { start: Pos(0), end: Pos(0) }, Box::new(inner))
    } else {
        inner
    }
}

} // verus!
