use vstd::prelude::*;

use crate::concrete::{self, no_pos, no_span, Declaration, LamGroup, Pos, Span};
use crate::core_syntax::{Constant, Definition, Module, Neutral, Term, Value};
use crate::quote::{quote, quote_neutral, quote_stuck, quote_value};
use crate::prec::Prec;
use crate::resugar::{
    constant_renders,
    either,
    first_error,
    outcome,
    renders,
    resugar_constant,
    resugar_term,
    ResugarError,
};

verus! {

/// Translation of something to its concrete representation.
pub trait ToConcrete<T>: Sized {
    /// Whether `r` is the translation of `self` at a position of precedence `prec`.
    spec fn renders_as(&self, prec: Prec, r: T) -> bool;

    /// Translates `self` for a position of precedence `prec`.
    fn to_concrete_prec(&self, prec: Prec) -> (r: T)
        ensures
            self.renders_as(prec, r),
    ;

    /// Translates `self` for a position that never needs parentheses.
    fn to_concrete(&self) -> (r: T)
        ensures
            self.renders_as(Prec::NO_WRAP, r),
    {
        self.to_concrete_prec(Prec::NO_WRAP)
    }
}

impl ToConcrete<concrete::Term> for Constant {
    open spec fn renders_as(&self, prec: Prec, r: concrete::Term) -> bool {
        constant_renders(*self, r)
    }

    fn to_concrete_prec(&self, prec: Prec) -> (r: concrete::Term) {
        resugar_constant(self)
    }
}

impl ToConcrete<Result<concrete::Term, ResugarError>> for Term {
    open spec fn renders_as(&self, prec: Prec, r: Result<concrete::Term, ResugarError>) -> bool {
        outcome(*self, seq![], prec, r)
    }

    fn to_concrete_prec(&self, prec: Prec) -> (r: Result<concrete::Term, ResugarError>) {
        let mut env: Vec<String> = Vec::new();
        assert(env@ =~= seq![]);
        resugar_term(self, &mut env, prec)
    }
}

/// Whether `params` and `body` render `t`, at a position of precedence
/// `prec` under the binders `env`, with the parameters of the leading
/// lambdas of `t` taken out into `params`, one group per lambda.
pub open spec fn header_renders(
    t: Term,
    env: Seq<String>,
    prec: Prec,
    params: Seq<LamGroup>,
    body: concrete::Term,
) -> bool
    decreases t,
{
    match t {
        Term::Lam(s) => {
            &&& params.len() >= 1
            &&& params[0].0@ == seq![(no_pos(), s.name)]
            &&& params[0].1 is Some
            &&& renders(*s.ann, env, Prec::LAM, *params[0].1->Some_0)
            &&& header_renders(*s.body, env.push(s.name), Prec::LAM, params.drop_first(), body)
        },
        _ => params.len() == 0 && renders(t, env, prec, body),
    }
}

/// The first error met when translating a definition: in its type, then in
/// its body.
pub open spec fn definition_error(d: Definition) -> Option<ResugarError> {
    either(first_error(d.ann, 0), first_error(d.term, 0))
}

/// Whether `claim` and `def` are the translation of the definition `d`: the
/// claim of its type, and its body with the leading lambdas' parameters
/// hoisted into the header.
pub open spec fn definition_renders(d: Definition, claim: Declaration, def: Declaration) -> bool {
    &&& claim is Claim
    &&& claim->Claim_name == (no_pos(), d.name)
    &&& renders(d.ann, seq![], Prec::ANN, claim->Claim_ann)
    &&& def is Definition
    &&& def->Definition_span == no_span()
    &&& def->Definition_name == d.name
    &&& header_renders(d.term, seq![], Prec::ANN, def->Definition_params@, def->Definition_body)
}

/// Takes the parameter groups of the leading lambdas of `full`, the
/// rendering of `t`, out into a header.
fn hoist(full: concrete::Term, Ghost(t): Ghost<Term>, Ghost(env): Ghost<Seq<String>>, Ghost(
    prec,
): Ghost<Prec>) -> (r: (Vec<LamGroup>, concrete::Term))
    requires
        renders(t, env, prec, full),
        prec == Prec::ANN || prec == Prec::LAM,
    ensures
        header_renders(t, env, prec, r.0@, r.1),
    decreases t,
{
    match full {
        concrete::Term::Lam(_, groups, body) => {
            assert(t is Lam);
            let ghost s = t->Lam_0;
            let (mut rest, inner) = hoist(
                *body,
                Ghost(*s.body),
                Ghost(env.push(s.name)),
                Ghost(Prec::LAM),
            );
            let mut groups = groups;
            let ghost tail = rest@;
            groups.append(&mut rest);
            assert(groups@.drop_first() =~= tail);
            (groups, inner)
        },
        other => {
            assert(!(t is Lam));
            (Vec::new(), other)
        },
    }
}

impl ToConcrete<Result<(Declaration, Declaration), ResugarError>> for Definition {
    open spec fn renders_as(
        &self,
        prec: Prec,
        r: Result<(Declaration, Declaration), ResugarError>,
    ) -> bool {
        match r {
            Ok((claim, def)) => definition_error(*self) is None && definition_renders(
                *self,
                claim,
                def,
            ),
            Err(e) => definition_error(*self) == Some(e),
        }
    }

    fn to_concrete_prec(&self, prec: Prec) -> (r: Result<(Declaration, Declaration), ResugarError>) {
        let mut env: Vec<String> = Vec::new();
        assert(env@ =~= seq![]);
        let ann = match resugar_term(&self.ann, &mut env, Prec::ANN) {
            Ok(v) => v,
            Err(e) => return Err(e),
        };
        let full = match resugar_term(&self.term, &mut env, Prec::ANN) {
            Ok(v) => v,
            Err(e) => return Err(e),
        };
        let (params, body) = hoist(full, Ghost(self.term), Ghost(env@), Ghost(Prec::ANN));
        let claim = Declaration::Claim { name: (Pos(0), self.name.clone()), ann };
        let def = Declaration::Definition {
            span: Span { start: Pos(0), end: Pos(0) },
            name: self.name.clone(),
            params,
            body,
        };
        Ok((claim, def))
    }
}

impl ToConcrete<Result<concrete::Module, ResugarError>> for Module {
    open spec fn renders_as(&self, prec: Prec, r: Result<concrete::Module, ResugarError>) -> bool {
        let defs = self.definitions@;
        match r {
            Ok(m) => {
                &&& m.name == (no_pos(), self.name)
                &&& m.declarations@.len() == 2 * defs.len()
                &&& forall|i: int|
                    0 <= i < defs.len() ==> definition_error(#[trigger] defs[i]) is None
                        && definition_renders(
                        defs[i],
                        m.declarations@[2 * i],
                        m.declarations@[2 * i + 1],
                    )
            },
            Err(e) => exists|i: int|
                0 <= i < defs.len() && definition_error(#[trigger] defs[i]) == Some(e) && forall|
                    j: int,
                | 0 <= j < i ==> definition_error(#[trigger] defs[j]) is None,
        }
    }

    fn to_concrete_prec(&self, prec: Prec) -> (r: Result<concrete::Module, ResugarError>) {
        let mut declarations: Vec<Declaration> = Vec::new();
        let n = self.definitions.len();
        let mut i: usize = 0;
        while i < n
            invariant
                n == self.definitions@.len(),
                i <= n,
                declarations@.len() == 2 * i,
                forall|k: int|
                    0 <= k < i ==> definition_error(#[trigger] self.definitions@[k]) is None
                        && definition_renders(
                        self.definitions@[k],
                        declarations@[2 * k],
                        declarations@[2 * k + 1],
                    ),
            decreases n - i,
        {
            match self.definitions[i].to_concrete() {
                Ok((claim, def)) => {
                    declarations.push(claim);
                    declarations.push(def);
                },
                Err(e) => {
                    assert(definition_error(self.definitions@[i as int]) == Some(e));
                    return Err(e);
                },
            }
            i = i + 1;
        }
        Ok(concrete::Module { name: (Pos(0), self.name.clone()), declarations })
    }
}

impl ToConcrete<Result<concrete::Term, ResugarError>> for Value {
    open spec fn renders_as(&self, prec: Prec, r: Result<concrete::Term, ResugarError>) -> bool {
        outcome(quote(*self), seq![], prec, r)
    }

    fn to_concrete_prec(&self, prec: Prec) -> (r: Result<concrete::Term, ResugarError>) {
        quote_value(self).to_concrete_prec(prec)
    }
}

impl ToConcrete<Result<concrete::Term, ResugarError>> for Neutral {
    open spec fn renders_as(&self, prec: Prec, r: Result<concrete::Term, ResugarError>) -> bool {
        outcome(quote_neutral(*self), seq![], prec, r)
    }

    fn to_concrete_prec(&self, prec: Prec) -> (r: Result<concrete::Term, ResugarError>) {
        quote_stuck(self).to_concrete_prec(prec)
    }
}

} // verus!
