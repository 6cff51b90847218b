use vstd::prelude::*;

use crate::concrete::{self, no_pos, no_span, Field};
use crate::core_syntax::{Definition, Scope, Term};
use crate::prec::Prec;
use crate::resugar::{
    bare_renders,
    chain_labels,
    chain_ok,
    fields_render,
    first_error,
    mentions,
    natural_prec,
    renders,
    ResugarError,
};
use crate::translate::definition_renders;

verus! {

/// A rendering with the parentheses round it, if any, taken off.
pub open spec fn unparenthesized(out: concrete::Term) -> concrete::Term {
    if out is Parens {
        *out->Parens_1
    } else {
        out
    }
}

/// A rendering is in parentheses exactly when the construct that the term
/// becomes binds looser than the position it stands in, and never in two
/// pairs of them.
pub proof fn lemma_parens_exactly_when_looser(
    t: Term,
    env: Seq<String>,
    prec: Prec,
    out: concrete::Term,
)
    requires
        renders(t, env, prec, out),
    ensures
        out is Parens <==> natural_prec(t).binds_looser(prec),
        !(unparenthesized(out) is Parens),
{
    assert(bare_renders(t, env, unparenthesized(out)));
}

/// The lowest universe is rendered with no level; any other with exactly
/// its level.
pub proof fn lemma_universe_level(level: u32, env: Seq<String>, prec: Prec, out: concrete::Term)
    requires
        renders(Term::Universe(level), env, prec, out),
    ensures
        level == 0 ==> out == concrete::Term::Universe(no_span(), None),
        level >= 1 ==> unparenthesized(out) == concrete::Term::Universe(no_span(), Some(level)),
{
}

/// A pi type whose body does not refer to its binder is rendered as an
/// arrow; one whose body does is rendered with the binder's name.
pub proof fn lemma_arrow_collapse(s: Scope, env: Seq<String>, prec: Prec, out: concrete::Term)
    requires
        renders(Term::Pi(s), env, prec, out),
    ensures
        !mentions(*s.body, 0) ==> unparenthesized(out) is Arrow,
        mentions(*s.body, 0) ==> {
            &&& unparenthesized(out) is Pi
            &&& unparenthesized(out)->Pi_1@.len() == 1
            &&& unparenthesized(out)->Pi_1@[0].0@ == seq![(no_pos(), s.name)]
        },
{
}

proof fn lemma_fields_follow_labels(t: Term, env: Seq<String>, fs: Seq<Field>, i: int)
    requires
        0 <= i,
        fields_render(t, env, fs, i),
    ensures
        fs.len() == i + chain_labels(t).len(),
        forall|j: int| 0 <= j < chain_labels(t).len() ==> fs[i + j].1 == chain_labels(t)[j],
    decreases t,
{
    match t {
        Term::RecordType(_, _, rest) | Term::Record(_, _, rest) => {
            lemma_fields_follow_labels(*rest, env, fs, i + 1);
            assert forall|j: int| 0 <= j < chain_labels(t).len() implies fs[i + j].1 == chain_labels(
                t,
            )[j] by {
                if j > 0 {
                    assert(fs[(i + 1) + (j - 1)].1 == chain_labels(*rest)[j - 1]);
                }
            }
        },
        _ => {},
    }
}

/// A record type chain of `n` links that ends in the empty record type is
/// rendered as one flat record type of `n` fields, with the links' labels in
/// order.
pub proof fn lemma_record_type_flattening(
    t: Term,
    env: Seq<String>,
    prec: Prec,
    out: concrete::Term,
)
    requires
        t is RecordType || t is EmptyRecordType,
        renders(t, env, prec, out),
    ensures
        chain_ok(t, true),
        out is RecordType,
        out->RecordType_1@.len() == chain_labels(t).len(),
        forall|j: int|
            0 <= j < chain_labels(t).len() ==> out->RecordType_1@[j].1 == chain_labels(t)[j],
{
    lemma_fields_follow_labels(t, env, out->RecordType_1@, 0);
}

/// A record chain of `n` links that ends in the empty record is rendered as
/// one flat record of `n` fields, with the links' labels in order.
pub proof fn lemma_record_flattening(t: Term, env: Seq<String>, prec: Prec, out: concrete::Term)
    requires
        t is Record || t is EmptyRecord,
        renders(t, env, prec, out),
    ensures
        chain_ok(t, false),
        out is Record,
        out->Record_1@.len() == chain_labels(t).len(),
        forall|j: int| 0 <= j < chain_labels(t).len() ==> out->Record_1@[j].1 == chain_labels(t)[j],
{
    lemma_fields_follow_labels(t, env, out->Record_1@, 0);
}

/// A record type chain that does not end in the empty record type fails as
/// malformed, and so does a record chain that does not end in the empty
/// record.
pub proof fn lemma_malformed_chain_fails(t: Term, depth: int)
    ensures
        t is RecordType && !chain_ok(t, true) ==> first_error(t, depth) == Some(
            ResugarError::MalformedRecordType,
        ),
        t is Record && !chain_ok(t, false) ==> first_error(t, depth) == Some(
            ResugarError::MalformedRecord,
        ),
{
}

/// A definition whose body is `λ(x : A) → λ(y : B) → e`, with `e` no
/// lambda, becomes a definition with the two parameter groups `(x : A)` and
/// `(y : B)` in its header and `e` as its body.
pub proof fn lemma_currying_hoist(d: Definition, claim: concrete::Declaration, def: concrete::Declaration)
    requires
        d.term is Lam,
        *d.term->Lam_0.body is Lam,
        !(*(*d.term->Lam_0.body)->Lam_0.body is Lam),
        definition_renders(d, claim, def),
    ensures
        ({
            let x = d.term->Lam_0;
            let y = (*x.body)->Lam_0;
            let params = def->Definition_params@;
            &&& params.len() == 2
            &&& params[0].0@ == seq![(no_pos(), x.name)]
            &&& params[1].0@ == seq![(no_pos(), y.name)]
            &&& params[0].1 is Some && renders(*x.ann, seq![], Prec::LAM, *params[0].1->Some_0)
            &&& params[1].1 is Some && renders(
                *y.ann,
                seq![x.name],
                Prec::LAM,
                *params[1].1->Some_0,
            )
            &&& renders(*y.body, seq![x.name, y.name], Prec::LAM, def->Definition_body)
        }),
{
    let x = d.term->Lam_0;
    let y = (*x.body)->Lam_0;
    let params = def->Definition_params@;
    let body = def->Definition_body;
    let env1: Seq<String> = seq![].push(x.name);
    assert(env1 =~= seq![x.name]);
    assert(env1.push(y.name) =~= seq![x.name, y.name]);
    assert(crate::translate::header_renders(d.term, seq![], Prec::ANN, params, body));
    assert(crate::translate::header_renders(*x.body, env1, Prec::LAM, params.drop_first(), body));
    assert(crate::translate::header_renders(
        *y.body,
        env1.push(y.name),
        Prec::LAM,
        params.drop_first().drop_first(),
        body,
    ));
    assert(params.drop_first()[0] == params[1]);
}

} // verus!
