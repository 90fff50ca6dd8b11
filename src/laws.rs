//! Properties of the checks and of the generated code.

use vstd::prelude::*;
use crate::model::{param_names, Param, Signature, SumType, Variant};
use crate::validate::{check_result, first_invalid_from, GenerateError, GenericsSite};
use crate::emit::{
    arms_text, artifact_matches, clause_matches, clause_text, forward_text, interface_name_of,
    params_text, source_text, string_views, DispatchClause, GeneratedArtifact,
};

verus! {

/// Two variants with the same name text and the same payload shape.
pub open spec fn same_variant(a: Variant, b: Variant) -> bool {
    a.name@ == b.name@ && a.shape == b.shape
}

/// Two enums that read the same: same name text, generics and variants.
pub open spec fn same_sum_type(a: SumType, b: SumType) -> bool {
    &&& a.name@ == b.name@
    &&& a.has_generics == b.has_generics
    &&& a.variants@.len() == b.variants@.len()
    &&& forall|i: int|
        0 <= i < a.variants@.len() ==> same_variant(
            #[trigger] a.variants@[i],
            b.variants@[i],
        )
}

/// Two parameters with the same name and type text.
pub open spec fn same_param(a: Param, b: Param) -> bool {
    a.name@ == b.name@ && a.ty@ == b.ty@
}

/// Two signatures that read the same.
pub open spec fn same_signature(a: Signature, b: Signature) -> bool {
    &&& a.method_name@ == b.method_name@
    &&& a.has_generics == b.has_generics
    &&& a.qualifiers@ == b.qualifiers@
    &&& match (a.receiver, b.receiver) {
        (Some(x), Some(y)) => x.form == y.form && x.text@ == y.text@,
        (None, None) => true,
        _ => false,
    }
    &&& a.variadic == b.variadic
    &&& a.params@.len() == b.params@.len()
    &&& forall|i: int|
        0 <= i < a.params@.len() ==> same_param(#[trigger] a.params@[i], b.params@[i])
    &&& match (a.return_type, b.return_type) {
        (Some(x), Some(y)) => x@ == y@,
        (None, None) => true,
        _ => false,
    }
    &&& match (a.where_clause, b.where_clause) {
        (Some(x), Some(y)) => x@ == y@,
        (None, None) => true,
        _ => false,
    }
}

proof fn lemma_first_invalid_same(a: Seq<Variant>, b: Seq<Variant>, i: int)
    requires
        a.len() == b.len(),
        forall|j: int| 0 <= j < a.len() ==> same_variant(#[trigger] a[j], b[j]),
    ensures
        first_invalid_from(a, i) == first_invalid_from(b, i),
        first_invalid_from(a, i) matches Some(k) ==> 0 <= k < a.len(),
    decreases a.len() - i,
{
    if 0 <= i < a.len() {
        assert(same_variant(a[i], b[i]));
        lemma_first_invalid_same(a, b, i + 1);
    }
}

proof fn lemma_params_text_same(a: Seq<Param>, b: Seq<Param>)
    requires
        a.len() == b.len(),
        forall|j: int| 0 <= j < a.len() ==> same_param(#[trigger] a[j], b[j]),
    ensures
        params_text(a) == params_text(b),
        param_names(a) == param_names(b),
    decreases a.len(),
{
    if a.len() > 0 {
        assert(same_param(a[a.len() - 1], b[b.len() - 1]));
        lemma_params_text_same(a.drop_last(), b.drop_last());
    }
    assert(param_names(a) =~= param_names(b));
}

proof fn lemma_arms_text_same(a: Seq<Variant>, b: Seq<Variant>, iface: Seq<char>, s: Signature, t: Signature)
    requires
        a.len() == b.len(),
        forall|j: int| 0 <= j < a.len() ==> same_variant(#[trigger] a[j], b[j]),
        s.method_name@ == t.method_name@,
        param_names(s.params@) == param_names(t.params@),
    ensures
        arms_text(a, iface, s) == arms_text(b, iface, t),
    decreases a.len(),
{
    if a.len() > 0 {
        assert(same_variant(a[a.len() - 1], b[b.len() - 1]));
        lemma_arms_text_same(a.drop_last(), b.drop_last(), iface, s, t);
    }
}

/// Generation is a function of what the inputs hold: two invocations on
/// inputs that read the same give the same outcome and the same text.
pub proof fn lemma_deterministic(sum1: SumType, sig1: Signature, sum2: SumType, sig2: Signature)
    requires
        same_sum_type(sum1, sum2),
        same_signature(sig1, sig2),
    ensures
        check_result(sum1, sig1) == check_result(sum2, sig2),
        source_text(sum1, sig1) == source_text(sum2, sig2),
{
    lemma_first_invalid_same(sum1.variants@, sum2.variants@, 0);
    if let Some(k) = first_invalid_from(sum1.variants@, 0) {
        assert(same_variant(sum1.variants@[k], sum2.variants@[k]));
    }
    lemma_params_text_same(sig1.params@, sig2.params@);
    lemma_arms_text_same(sum1.variants@, sum2.variants@, interface_name_of(sig1), sig1, sig2);
}

/// The arms' texts, in order, each followed by a space.
pub open spec fn joined_clauses(cs: Seq<DispatchClause>) -> Seq<char>
    decreases cs.len(),
{
    if cs.len() == 0 {
        Seq::empty()
    } else {
        joined_clauses(cs.drop_last()) + cs.last().text@ + " "@
    }
}

proof fn lemma_arms_are_clauses(cs: Seq<DispatchClause>, vs: Seq<Variant>, sig: Signature)
    requires
        cs.len() == vs.len(),
        forall|i: int| 0 <= i < cs.len() ==> #[trigger] clause_matches(cs[i], vs[i], sig, interface_name_of(sig)),
    ensures
        arms_text(vs, interface_name_of(sig), sig) == joined_clauses(cs),
    decreases cs.len(),
{
    if cs.len() > 0 {
        let n = cs.len() - 1;
        assert(clause_matches(cs[n], vs[n], sig, interface_name_of(sig)));
        assert forall|i: int| 0 <= i < n implies #[trigger] clause_matches(
            cs.drop_last()[i],
            vs.drop_last()[i],
            sig,
            interface_name_of(sig),
        ) by {
            assert(clause_matches(cs[i], vs[i], sig, interface_name_of(sig)));
        }
        lemma_arms_are_clauses(cs.drop_last(), vs.drop_last(), sig);
    }
}

/// The implementation holds one arm per variant, in the variants' order, and
/// its match is exactly those arms.
pub proof fn lemma_dispatch_complete(a: GeneratedArtifact, sum: SumType, sig: Signature)
    requires
        artifact_matches(a, sum, sig),
    ensures
        a.clauses@.len() == sum.variants@.len(),
        forall|i: int|
            0 <= i < a.clauses@.len() ==> (#[trigger] a.clauses@[i]).variant@
                == sum.variants@[i].name@,
        arms_text(sum.variants@, interface_name_of(sig), sig) == joined_clauses(a.clauses@),
{
    assert forall|i: int| 0 <= i < a.clauses@.len() implies (#[trigger] a.clauses@[i]).variant@
        == sum.variants@[i].name@ by {
        assert(clause_matches(a.clauses@[i], sum.variants@[i], sig, interface_name_of(sig)));
    }
    lemma_arms_are_clauses(a.clauses@, sum.variants@, sig);
}

/// Generics on the enum are reported before anything else, whatever its
/// variants hold.
pub proof fn lemma_generics_reported_first(sum: SumType, sig: Signature)
    requires
        sum.has_generics,
    ensures
        check_result(sum, sig) == Err::<(), GenerateError>(
            GenerateError::GenericsUnsupported(GenericsSite::SumType),
        ),
{
}

/// Every arm forwards the signature's parameters by name, in their order.
pub proof fn lemma_forwarding(a: GeneratedArtifact, sum: SumType, sig: Signature)
    requires
        artifact_matches(a, sum, sig),
    ensures
        forall|i: int|
            0 <= i < a.clauses@.len() ==> string_views((#[trigger] a.clauses@[i]).args@)
                == param_names(sig.params@) && a.clauses@[i].text@ == clause_text(
                sum.variants@[i].name@,
                interface_name_of(sig),
                sig.method_name@,
                param_names(sig.params@),
            ),
{
    assert forall|i: int| 0 <= i < a.clauses@.len() implies string_views(
        (#[trigger] a.clauses@[i]).args@,
    ) == param_names(sig.params@) && a.clauses@[i].text@ == clause_text(
        sum.variants@[i].name@,
        interface_name_of(sig),
        sig.method_name@,
        param_names(sig.params@),
    ) by {
        assert(clause_matches(a.clauses@[i], sum.variants@[i], sig, interface_name_of(sig)));
    }
}

/// Two parameters are forwarded as `, a, b`: in order and by their names.
pub proof fn lemma_forward_two(a: Seq<char>, b: Seq<char>)
    ensures
        forward_text(seq![a, b]) == ", "@ + a + ", "@ + b,
{
    let s = seq![a, b];
    assert(s.drop_last() =~= seq![a]);
    assert(seq![a].drop_last() =~= Seq::<Seq<char>>::empty());
    assert(seq![a].last() == a);
    assert(forward_text(Seq::<Seq<char>>::empty()) == Seq::<char>::empty());
    assert(forward_text(seq![a]) == forward_text(Seq::<Seq<char>>::empty()) + ", "@ + a);
    assert(s.last() == b);
    assert(forward_text(seq![a]) =~= ", "@ + a);
    assert(forward_text(s) =~= ", "@ + a + ", "@ + b);
}

} // verus!
