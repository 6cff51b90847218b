use vstd::prelude::*;

verus! {

/// The name of a free variable.
#[derive(Debug, Clone, PartialEq, Eq)]
pub enum Name {
    /// A name written by the user.
    User(String),
    /// A name generated by the elaborator, known by its number.
    Gen(u32),
}

/// A variable occurrence in a locally-nameless term.
#[derive(Debug, Clone, PartialEq, Eq)]
pub enum Var {
    /// A free variable.
    Free(Name),
    /// A variable bound by an enclosing scope: the number of scopes between
    /// the occurrence and its binder, and the binder's slot in that scope.
    Bound(u32, u32),
}

/// A scope binding one variable: the binder's name hint, its type, and a
/// body in which `Var::Bound(0, 0)` refers to the binder.
#[derive(Debug, PartialEq, Eq)]
pub struct Scope {
    pub name: String,
    pub ann: Box<Term>,
    pub body: Box<Term>,
}

/// A primitive constant.
#[derive(Debug, Clone, PartialEq, Eq)]
pub enum Constant {
    Bool(bool),
    String(String),
    Char(char),
    U8(u8),
    U16(u16),
    U32(u32),
    U64(u64),
    I8(i8),
    I16(i16),
    I32(i32),
    I64(i64),
    BoolType,
    StringType,
    CharType,
    U8Type,
    U16Type,
    U32Type,
    U64Type,
    I8Type,
    I16Type,
    I32Type,
    I64Type,
    F32Type,
    F64Type,
}

/// An elaborated core term.
#[derive(Debug, PartialEq, Eq)]
pub enum Term {
    /// A term ascribed a type.
    Ann(Box<Term>, Box<Term>),
    /// The universe of types at a level.
    Universe(u32),
    Constant(Constant),
    Var(Var),
    /// A dependent function type.
    Pi(Scope),
    /// A function.
    Lam(Scope),
    /// An application of a function to one argument.
    App(Box<Term>, Box<Term>),
    /// A conditional: condition, then-branch, else-branch.
    If(Box<Term>, Box<Term>, Box<Term>),
    /// A record type: label, field type, and the rest of the chain.
    RecordType(String, Box<Term>, Box<Term>),
    /// A record: label, field value, and the rest of the chain.
    Record(String, Box<Term>, Box<Term>),
    /// The end of a record type chain.
    EmptyRecordType,
    /// The end of a record chain.
    EmptyRecord,
    /// The projection of a field out of a record.
    Proj(Box<Term>, String),
}

/// A top-level definition: its name, its type and its body.
#[derive(Debug, PartialEq, Eq)]
pub struct Definition {
    pub name: String,
    pub ann: Term,
    pub term: Term,
}

/// A module: its name and its definitions in order.
#[derive(Debug, PartialEq, Eq)]
pub struct Module {
    pub name: String,
    pub definitions: Vec<Definition>,
}

/// A scope of a value binding one variable: the binder's name hint, its
/// type, and a body in which `Var::Bound(0, 0)` refers to the binder.
#[derive(Debug, PartialEq, Eq)]
pub struct ValueScope {
    pub name: String,
    pub ann: Box<Value>,
    pub body: Box<Value>,
}

/// A term in normal form, as the normalizer produces it.
#[derive(Debug, PartialEq, Eq)]
pub enum Value {
    Universe(u32),
    Constant(Constant),
    Pi(ValueScope),
    Lam(ValueScope),
    RecordType(String, Box<Value>, Box<Value>),
    Record(String, Box<Value>, Box<Value>),
    EmptyRecordType,
    EmptyRecord,
    /// A computation stuck on a variable.
    Neutral(Neutral),
}

/// A computation that cannot reduce further because it is stuck on a
/// variable.
#[derive(Debug, PartialEq, Eq)]
pub enum Neutral {
    Var(Var),
    App(Box<Neutral>, Box<Value>),
    If(Box<Neutral>, Box<Value>, Box<Value>),
    Proj(Box<Neutral>, String),
}

} // verus!
