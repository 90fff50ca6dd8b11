//! Emission of the trait declaration and of its dispatching implementation
//! for inputs that passed the checks.

use vstd::prelude::*;
use vstd::string::StringExecFns;
use crate::model::{param_names, Param, SelfParam, Signature, SumType, Variant};
use crate::validate::{check_result, is_valid, validity_checks, GenerateError};

verus! {

/// What heck's upper camel case conversion makes of a text.
pub uninterp spec fn upper_camel_of(s: Seq<char>) -> Seq<char>;

/// Relies on `heck::ToUpperCamelCase::to_upper_camel_case` for `str`, which
/// returns a new string that depends on the given text alone.
#[verifier::external_body]
pub(crate) fn upper_camel_case(ident: &str) -> (r: String)
    ensures
        r@ == upper_camel_of(ident@),
{
    heck::ToUpperCamelCase::to_upper_camel_case(ident)
}

/// The views of a sequence of strings.
pub open spec fn string_views(v: Seq<String>) -> Seq<Seq<char>> {
    v.map_values(|s: String| s@)
}

pub open spec fn receiver_text(r: Option<SelfParam>) -> Seq<char> {
    match r {
        Some(p) => p.text@,
        None => Seq::empty(),
    }
}

/// The qualifiers, if any, followed by a space, and `fn `.
pub open spec fn head_text(qualifiers: Seq<char>) -> Seq<char> {
    if qualifiers.len() == 0 {
        "fn "@
    } else {
        qualifiers + " fn "@
    }
}

/// A space and the `where` clause, if there is one.
pub open spec fn where_text(w: Option<String>) -> Seq<char> {
    match w {
        Some(t) => " "@ + t@,
        None => Seq::empty(),
    }
}

/// `, name: type` for each parameter, in order.
pub open spec fn params_text(ps: Seq<Param>) -> Seq<char>
    decreases ps.len(),
{
    if ps.len() == 0 {
        Seq::empty()
    } else {
        params_text(ps.drop_last()) + ", "@ + ps.last().name@ + ": "@ + ps.last().ty@
    }
}

pub open spec fn return_text(ret: Option<String>) -> Seq<char> {
    match ret {
        Some(t) => " -> "@ + t@,
        None => Seq::empty(),
    }
}

/// The signature as source text:
/// `qualifiers fn name(receiver, a: A, b: B) -> R where ...`.
pub open spec fn signature_text(sig: Signature) -> Seq<char> {
    head_text(sig.qualifiers@) + sig.method_name@ + "("@ + receiver_text(sig.receiver) + params_text(
        sig.params@,
    ) + ")"@ + return_text(sig.return_type) + where_text(sig.where_clause)
}

/// `, a` for each forwarded argument, in order.
pub open spec fn forward_text(args: Seq<Seq<char>>) -> Seq<char>
    decreases args.len(),
{
    if args.len() == 0 {
        Seq::empty()
    } else {
        forward_text(args.drop_last()) + ", "@ + args.last()
    }
}

/// The match arm of one variant: the payload is bound to `args` and the
/// trait's method is called on it with every argument forwarded.
pub open spec fn clause_text(
    variant: Seq<char>,
    iface: Seq<char>,
    method: Seq<char>,
    args: Seq<Seq<char>>,
) -> Seq<char> {
    "Self::"@ + variant + "(args) => self::"@ + iface + "::"@ + method + "(args"@ + forward_text(args)
        + "),"@
}

/// The match arms of all the variants, in order, each followed by a space.
pub open spec fn arms_text(vs: Seq<Variant>, iface: Seq<char>, sig: Signature) -> Seq<char>
    decreases vs.len(),
{
    if vs.len() == 0 {
        Seq::empty()
    } else {
        arms_text(vs.drop_last(), iface, sig) + clause_text(
            vs.last().name@,
            iface,
            sig.method_name@,
            param_names(sig.params@),
        ) + " "@
    }
}

/// `trait Iface { signature; }`
pub open spec fn interface_text(iface: Seq<char>, sig: Signature) -> Seq<char> {
    "trait "@ + iface + " { "@ + signature_text(sig) + "; }"@
}

/// `impl Iface for Enum { signature { match self { arms } } }`
pub open spec fn impl_text(iface: Seq<char>, sum: SumType, sig: Signature) -> Seq<char> {
    "impl "@ + iface + " for "@ + sum.name@ + " { "@ + signature_text(sig) + " { match self { "@
        + arms_text(sum.variants@, iface, sig) + "} } }"@
}

/// The name of the generated trait.
pub open spec fn interface_name_of(sig: Signature) -> Seq<char> {
    upper_camel_of(sig.method_name@)
}

/// Everything generated for valid inputs: the trait, a line break, the impl.
pub open spec fn source_text(sum: SumType, sig: Signature) -> Seq<char> {
    interface_text(interface_name_of(sig), sig) + "\n"@ + impl_text(
        interface_name_of(sig),
        sum,
        sig,
    )
}

/// One match arm of the dispatching implementation.
#[derive(Debug)]
pub struct DispatchClause {
    /// The variant matched.
    pub variant: String,
    /// The arguments forwarded to the payload's method, in order.
    pub args: Vec<String>,
    /// The arm as source text.
    pub text: String,
}

/// What is generated for one enum and one signature.
#[derive(Debug)]
pub struct GeneratedArtifact {
    pub interface_name: String,
    pub interface_declaration: String,
    /// One arm per variant, in the variants' order.
    pub clauses: Vec<DispatchClause>,
    pub dispatch_implementation: String,
}

/// The arm generated for variant `v`, with the trait named `iface`.
pub open spec fn clause_matches(c: DispatchClause, v: Variant, sig: Signature, iface: Seq<char>) -> bool {
    &&& c.variant@ == v.name@
    &&& string_views(c.args@) == param_names(sig.params@)
    &&& c.text@ == clause_text(v.name@, iface, sig.method_name@, param_names(sig.params@))
}

/// The artifact generated for `sum` and `sig` with the trait named `iface`,
/// part by part.
pub open spec fn artifact_named(
    a: GeneratedArtifact,
    sum: SumType,
    sig: Signature,
    iface: Seq<char>,
) -> bool {
    &&& a.interface_name@ == iface
    &&& a.interface_declaration@ == interface_text(iface, sig)
    &&& a.clauses@.len() == sum.variants@.len()
    &&& forall|i: int|
        0 <= i < a.clauses@.len() ==> #[trigger] clause_matches(
            a.clauses@[i],
            sum.variants@[i],
            sig,
            iface,
        )
    &&& a.dispatch_implementation@ == impl_text(iface, sum, sig)
}

/// The artifact generated for `sum` and `sig`, the trait being named after
/// the method.
pub open spec fn artifact_matches(a: GeneratedArtifact, sum: SumType, sig: Signature) -> bool {
    artifact_named(a, sum, sig, interface_name_of(sig))
}

impl GeneratedArtifact {
    /// The trait declaration and the implementation, on two lines.
    pub fn source(&self) -> (r: String)
        ensures
            r@ == self.interface_declaration@ + "\n"@ + self.dispatch_implementation@,
    {
        let mut s = self.interface_declaration.clone();
        s.append("\n");
        s.append(self.dispatch_implementation.as_str());
        s
    }
}

/// The signature as source text.
fn render_signature(sig: &Signature) -> (r: String)
    ensures
        r@ == signature_text(*sig),
{
    let mut s = String::new();
    if sig.qualifiers.as_str().is_empty() {
        s.append("fn ");
    } else {
        s.append(sig.qualifiers.as_str());
        s.append(" fn ");
    }
    s.append(sig.method_name.as_str());
    s.append("(");
    match &sig.receiver {
        Some(p) => s.append(p.text.as_str()),
        None => {},
    }
    let ghost head = s@;
    let mut i: usize = 0;
    while i < sig.params.len()
        invariant
            0 <= i <= sig.params@.len(),
            s@ == head + params_text(sig.params@.subrange(0, i as int)),
        decreases sig.params@.len() - i,
    {
        let ghost before = sig.params@.subrange(0, i as int);
        s.append(", ");
        s.append(sig.params[i].name.as_str());
        s.append(": ");
        s.append(sig.params[i].ty.as_str());
        proof {
            let after = sig.params@.subrange(0, i + 1);
            assert(after.drop_last() =~= before);
            assert(s@ =~= head + params_text(after));
        }
        i = i + 1;
    }
    s.append(")");
    match &sig.return_type {
        Some(t) => {
            s.append(" -> ");
            s.append(t.as_str());
        },
        None => {},
    }
    match &sig.where_clause {
        Some(w) => {
            s.append(" ");
            s.append(w.as_str());
        },
        None => {},
    }
    assert(sig.params@.subrange(0, sig.params@.len() as int) =~= sig.params@);
    assert(s@ =~= signature_text(*sig));
    s
}

/// The names of the signature's parameters, to be forwarded.
fn forwarded_names(sig: &Signature) -> (r: Vec<String>)
    ensures
        string_views(r@) == param_names(sig.params@),
{
    let mut r: Vec<String> = Vec::new();
    let mut i: usize = 0;
    while i < sig.params.len()
        invariant
            0 <= i <= sig.params@.len(),
            r@.len() == i,
            forall|j: int| 0 <= j < i ==> #[trigger] r@[j]@ == sig.params@[j].name@,
        decreases sig.params@.len() - i,
    {
        r.push(sig.params[i].name.clone());
        i = i + 1;
    }
    assert(string_views(r@) =~= param_names(sig.params@));
    r
}

/// The match arm of one variant.
fn render_clause(variant: &String, iface: &String, method: &String, args: &Vec<String>) -> (r:
    String)
    ensures
        r@ == clause_text(variant@, iface@, method@, string_views(args@)),
{
    let mut s = String::new();
    s.append("Self::");
    s.append(variant.as_str());
    s.append("(args) => self::");
    s.append(iface.as_str());
    s.append("::");
    s.append(method.as_str());
    s.append("(args");
    let ghost head = s@;
    let ghost names = string_views(args@);
    let mut i: usize = 0;
    while i < args.len()
        invariant
            0 <= i <= args@.len(),
            names == string_views(args@),
            s@ == head + forward_text(names.subrange(0, i as int)),
        decreases args@.len() - i,
    {
        let ghost before = names.subrange(0, i as int);
        s.append(", ");
        s.append(args[i].as_str());
        proof {
            let after = names.subrange(0, i + 1);
            assert(after.drop_last() =~= before);
            assert(s@ =~= head + forward_text(after));
        }
        i = i + 1;
    }
    s.append("),");
    assert(names.subrange(0, names.len() as int) =~= names);
    assert(s@ =~= clause_text(variant@, iface@, method@, names));
    s
}

/// Generates the trait and its dispatching implementation, or reports the
/// first rule that the inputs break.
pub fn generate(sum: &SumType, sig: &Signature) -> (r: Result<GeneratedArtifact, GenerateError>)
    ensures
        match r {
            Ok(a) => is_valid(*sum, *sig) && artifact_matches(a, *sum, *sig),
            Err(e) => check_result(*sum, *sig) == Err::<(), GenerateError>(e),
        },
{
    let iface = upper_camel_case(sig.method_name.as_str());
    emit_named(sum, sig, &iface)
}

/// Generates the trait, named `iface`, and its dispatching implementation, or
/// reports the first rule that the inputs break.
pub fn emit_named(sum: &SumType, sig: &Signature, iface: &String) -> (r: Result<
    GeneratedArtifact,
    GenerateError,
>)
    ensures
        match r {
            Ok(a) => is_valid(*sum, *sig) && artifact_named(a, *sum, *sig, iface@),
            Err(e) => check_result(*sum, *sig) == Err::<(), GenerateError>(e),
        },
{
    match validity_checks(sum, sig) {
        Err(e) => {
            return Err(e);
        },
        Ok(()) => {},
    }
    let sig_text = render_signature(sig);

    let mut decl = String::new();
    decl.append("trait ");
    decl.append(iface.as_str());
    decl.append(" { ");
    decl.append(sig_text.as_str());
    decl.append("; }");
    assert(decl@ =~= interface_text(iface@, *sig));

    let mut arms = String::new();
    let mut clauses: Vec<DispatchClause> = Vec::new();
    let mut i: usize = 0;
    while i < sum.variants.len()
        invariant
            0 <= i <= sum.variants@.len(),
            clauses@.len() == i,
            forall|j: int|
                0 <= j < i ==> #[trigger] clause_matches(
                    clauses@[j],
                    sum.variants@[j],
                    *sig,
                    iface@,
                ),
            arms@ == arms_text(sum.variants@.subrange(0, i as int), iface@, *sig),
        decreases sum.variants@.len() - i,
    {
        let args = forwarded_names(sig);
        let text = render_clause(&sum.variants[i].name, iface, &sig.method_name, &args);
        arms.append(text.as_str());
        arms.append(" ");
        proof {
            let after = sum.variants@.subrange(0, i + 1);
            assert(after.drop_last() =~= sum.variants@.subrange(0, i as int));
            assert(arms@ =~= arms_text(after, iface@, *sig));
        }
        clauses.push(DispatchClause { variant: sum.variants[i].name.clone(), args, text });
        i = i + 1;
    }
    assert(sum.variants@.subrange(0, sum.variants@.len() as int) =~= sum.variants@);

    let mut imp = String::new();
    imp.append("impl ");
    imp.append(iface.as_str());
    imp.append(" for ");
    imp.append(sum.name.as_str());
    imp.append(" { ");
    imp.append(sig_text.as_str());
    imp.append(" { match self { ");
    imp.append(arms.as_str());
    imp.append("} } }");
    assert(imp@ =~= impl_text(iface@, *sum, *sig));

    Ok(
        GeneratedArtifact {
            interface_name: iface.clone(),
            interface_declaration: decl,
            clauses,
            dispatch_implementation: imp,
        },
    )
}

/// The source text generated for the enum and the signature: the trait, then
/// its implementation for the enum. Fails on the first rule that the inputs
/// break.
pub fn clap_dispatch(sum: &SumType, sig: &Signature) -> (r: Result<String, GenerateError>)
    ensures
        match r {
            Ok(s) => is_valid(*sum, *sig) && s@ == source_text(*sum, *sig),
            Err(e) => check_result(*sum, *sig) == Err::<(), GenerateError>(e),
        },
{
    match generate(sum, sig) {
        Ok(a) => Ok(a.source()),
        Err(e) => Err(e),
    }
}

} // verus!
