//! The composition layer: higher-level generation rules that combine
//! positionally supplied `(variant, code)` pairs or `(name, variant, code)`
//! triples into the full artifact sets — the conversion bundle and the
//! handler set with its single default handler.

use vstd::prelude::*;
use vstd::string::StringExecFns;

use crate::model::{Artifact, ArtifactKind, CodeMapping, HandlerSpec};
use crate::synth::{
    emit_forward_conversion, emit_request_conversion, emit_respondable_binding,
    emit_reverse_conversion, forward_impl_text, request_impl_text, respondable_impl_text,
    reverse_impl_text,
};
use crate::text::{dec_of, decimal_string};

verus! {

/// The default handler: reconstructs the error type from any status code
/// not otherwise special-cased.
pub open spec fn default_handler_text(enum_name: Seq<char>) -> Seq<char> {
    "#[catch(default)]\npub async fn default_catcher(status: rocket::http::Status, req: &rocket::Request<'_>) -> "@
        + enum_name + " {\n    return "@ + enum_name + "::from((status, req));\n}\n"@
}

/// The named handler for `h`: reconstructs the error type from `h`'s bound
/// code via the reverse conversion.
pub open spec fn handler_text(enum_name: Seq<char>, h: HandlerSpec) -> Seq<char> {
    "#[catch("@ + dec_of(h.code as nat) + ")]\npub async fn "@ + h.name@
        + "(req: &rocket::Request<'_>) -> "@ + enum_name + " {\n    return "@ + enum_name
        + "::from((rocket::http::Status::from_code("@ + dec_of(h.code as nat)
        + ").unwrap(), req));\n}\n"@
}

/// Emits the full conversion bundle for a mapping supplied positionally:
/// the forward and reverse conversions, the request-context conversion and
/// the error-interface binding, in that order.
pub fn maperr(enum_name: &str, m: &CodeMapping) -> (v: Vec<Artifact>)
    ensures
        v@.len() == 4,
        v@[0].kind == ArtifactKind::Conversion && v@[0].bound_to@ == enum_name@ && v@[0].body@
            == forward_impl_text(enum_name@, m.entries@),
        v@[1].kind == ArtifactKind::Conversion && v@[1].bound_to@ == enum_name@ && v@[1].body@
            == reverse_impl_text(enum_name@, m.entries@),
        v@[2].kind == ArtifactKind::Conversion && v@[2].bound_to@ == enum_name@ && v@[2].body@
            == request_impl_text(enum_name@, m.entries@),
        v@[3].kind == ArtifactKind::TraitImpl && v@[3].bound_to@ == enum_name@ && v@[3].body@
            == respondable_impl_text(enum_name@),
{
    let mut v: Vec<Artifact> = Vec::new();
    v.push(emit_forward_conversion(enum_name, m));
    v.push(emit_reverse_conversion(enum_name, m));
    v.push(emit_request_conversion(enum_name, m));
    v.push(emit_respondable_binding(enum_name));
    v
}

fn default_handler(enum_name: &str) -> (a: Artifact)
    ensures
        a.kind == ArtifactKind::Function,
        a.bound_to@ == "default_catcher"@,
        a.body@ == default_handler_text(enum_name@),
{
    let mut body: String =
        "#[catch(default)]\npub async fn default_catcher(status: rocket::http::Status, req: &rocket::Request<'_>) -> ".to_owned();
    body.append(enum_name);
    body.append(" {\n    return ");
    body.append(enum_name);
    body.append("::from((status, req));\n}\n");
    proof {
        assert(body@ =~= default_handler_text(enum_name@));
    }
    Artifact { kind: ArtifactKind::Function, bound_to: "default_catcher".to_owned(), body }
}

fn named_handler(enum_name: &str, h: &HandlerSpec) -> (a: Artifact)
    ensures
        a.kind == ArtifactKind::Function,
        a.bound_to@ == h.name@,
        a.body@ == handler_text(enum_name@, *h),
{
    let code: String = decimal_string(h.code);
    let mut body: String = "#[catch(".to_owned();
    body.append(code.as_str());
    body.append(")]\npub async fn ");
    body.append(h.name.as_str());
    body.append("(req: &rocket::Request<'_>) -> ");
    body.append(enum_name);
    body.append(" {\n    return ");
    body.append(enum_name);
    body.append("::from((rocket::http::Status::from_code(");
    body.append(code.as_str());
    body.append(").unwrap(), req));\n}\n");
    proof {
        assert(body@ =~= handler_text(enum_name@, *h));
    }
    Artifact { kind: ArtifactKind::Function, bound_to: h.name.clone(), body }
}

/// Emits one named handler per registered `(name, variant, code)` triple,
/// plus exactly one default handler, first in the result.
pub fn catchers(enum_name: &str, handlers: &Vec<HandlerSpec>) -> (v: Vec<Artifact>)
    ensures
        v@.len() == handlers@.len() + 1,
        v@[0].kind == ArtifactKind::Function,
        v@[0].bound_to@ == "default_catcher"@,
        v@[0].body@ == default_handler_text(enum_name@),
        forall|i: int|
            0 <= i < handlers@.len() ==> {
                &&& (#[trigger] v@[i + 1]).kind == ArtifactKind::Function
                &&& v@[i + 1].bound_to@ == handlers@[i].name@
                &&& v@[i + 1].body@ == handler_text(enum_name@, handlers@[i])
            },
{
    let n: usize = handlers.len();
    let mut v: Vec<Artifact> = Vec::new();
    v.push(default_handler(enum_name));
    let mut i: usize = 0;
    while i < n
        invariant
            i <= n,
            n == handlers@.len(),
            v@.len() == i + 1,
            v@[0].kind == ArtifactKind::Function,
            v@[0].bound_to@ == "default_catcher"@,
            v@[0].body@ == default_handler_text(enum_name@),
            forall|j: int|
                0 <= j < i ==> {
                    &&& (#[trigger] v@[j + 1]).kind == ArtifactKind::Function
                    &&& v@[j + 1].bound_to@ == handlers@[j].name@
                    &&& v@[j + 1].body@ == handler_text(enum_name@, handlers@[j])
                },
        decreases n - i,
    {
        v.push(named_handler(enum_name, &handlers[i]));
        i = i + 1;
    }
    v
}

} // verus!
