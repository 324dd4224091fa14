//! The code synthesizer: emits the target source fragments — bidirectional
//! code/variant conversions, the responder adapter, the quota function and
//! the state binding — each pinned to its exact text.
//!
//! The reverse conversion is deliberately partial: its emitted body looks
//! the code up, yielding an explicit absence for an unmapped code, and the
//! generated impl treats that absence as a fatal programming error.

use vstd::prelude::*;
use vstd::string::StringExecFns;

use crate::extract::{find_rate, spec_find_rate};
use crate::grammar::{parse_request, spec_all_bound, spec_find_binding};
use crate::model::{
    Artifact, ArtifactKind, CodeMapping, DeclKind, Entry, GenError, Kw, Token, TypeDeclaration,
};
use crate::text::{dec_of, decimal_string};
use crate::validate::{require_enum, require_struct};

verus! {

/// The forward-conversion match arm for entry `e`.
pub open spec fn forward_arm_text(enum_name: Seq<char>, e: Entry) -> Seq<char> {
    "            "@ + enum_name + "::"@ + e.variant@ + " => rocket::http::Status::from_code("@
        + dec_of(e.code as nat) + ").unwrap(),\n"@
}

/// The forward-conversion match arms for `entries`, in order.
pub open spec fn forward_arms_text(enum_name: Seq<char>, entries: Seq<Entry>) -> Seq<char>
    decreases entries.len(),
{
    if entries.len() == 0 {
        Seq::empty()
    } else {
        forward_arms_text(enum_name, entries.drop_last()) + forward_arm_text(
            enum_name,
            entries.last(),
        )
    }
}

/// The total forward conversion: one arm per mapping entry.
pub open spec fn forward_impl_text(enum_name: Seq<char>, entries: Seq<Entry>) -> Seq<char> {
    "impl From<"@ + enum_name + "> for rocket::http::Status {\n    fn from(error: "@ + enum_name
        + ") -> rocket::http::Status {\n        match error {\n"@ + forward_arms_text(
        enum_name,
        entries,
    ) + "        }\n    }\n}\n"@
}

/// The reverse-conversion match arm for entry `e`.
pub open spec fn reverse_arm_text(enum_name: Seq<char>, e: Entry) -> Seq<char> {
    "            "@ + dec_of(e.code as nat) + " => Some("@ + enum_name + "::"@ + e.variant@
        + "),\n"@
}

/// The reverse-conversion match arms for `entries`, in order.
pub open spec fn reverse_arms_text(enum_name: Seq<char>, entries: Seq<Entry>) -> Seq<char>
    decreases entries.len(),
{
    if entries.len() == 0 {
        Seq::empty()
    } else {
        reverse_arms_text(enum_name, entries.drop_last()) + reverse_arm_text(
            enum_name,
            entries.last(),
        )
    }
}

/// The partial reverse conversion: a lookup whose absence the generated
/// impl treats as fatal.
pub open spec fn reverse_impl_text(enum_name: Seq<char>, entries: Seq<Entry>) -> Seq<char> {
    "impl Into<"@ + enum_name + "> for rocket::http::Status {\n    fn into(self) -> "@ + enum_name
        + " {\n        let code = self.code;\n        let found = match code {\n"@
        + reverse_arms_text(enum_name, entries)
        + "            _ => None,\n        };\n        found.expect(\"no variant for status code\")\n    }\n}\n"@
}

/// The reverse conversion from an incoming status and request context.
pub open spec fn request_impl_text(enum_name: Seq<char>, entries: Seq<Entry>) -> Seq<char> {
    "impl From<(rocket::http::Status, &rocket::Request<'_>)> for "@ + enum_name
        + " {\n    fn from((status, req): (rocket::http::Status, &rocket::Request<'_>)) -> "@
        + enum_name
        + " {\n        let code = status.code;\n        let found = match code {\n"@
        + reverse_arms_text(enum_name, entries)
        + "            _ => None,\n        };\n        found.expect(\"no variant for status code\")\n    }\n}\n"@
}

/// The error-interface binding of the enum to its payload type.
pub open spec fn respondable_impl_text(enum_name: Seq<char>) -> Seq<char> {
    "impl Respondable<"@ + enum_name + "> for "@ + enum_name
        + " {\n    type Payload = rocket::http::Status;\n}\n"@
}

/// The responder adapter: delegates to the forward conversion, then to the
/// framework's own status responder.
pub open spec fn responder_impl_text(enum_name: Seq<char>) -> Seq<char> {
    "impl<'r> rocket::response::Responder<'r, 'static> for "@ + enum_name
        + " {\n    fn respond_to(self, req: &'r rocket::Request<'_>) -> rocket::response::Result<'static> {\n        let status: rocket::http::Status = self.into();\n        return status.respond_to(req);\n    }\n}\n"@
}

/// The quota function: a fixed per-second rate.
pub open spec fn quota_impl_text(struct_name: Seq<char>, rate: nat) -> Seq<char> {
    "impl<'r> RocketGovernable<'r> for "@ + struct_name
        + " {\n    fn quota(_method: Method, _route_name: &str) -> Quota {\n        Quota::per_second(Self::nonzero("@
        + dec_of(rate) + "))\n    }\n}\n"@
}

/// The state binding: the pure type's inner storage is a shared-ownership
/// handle over the guts type, and the pure type gains the yield capability.
pub open spec fn state_binding_text(guts: Seq<char>, pure_id: Seq<char>, yield_id: Seq<char>) -> Seq<
    char,
> {
    "impl BlastState for "@ + pure_id + " {\n    type Inner = Arc<"@ + guts + ">;\n}\nimpl "@
        + yield_id + " for "@ + pure_id + " {}\n"@
}

fn forward_arm(enum_name: &str, e: &Entry) -> (r: String)
    ensures
        r@ == forward_arm_text(enum_name@, *e),
{
    let mut s: String = "            ".to_owned();
    s.append(enum_name);
    s.append("::");
    s.append(e.variant.as_str());
    s.append(" => rocket::http::Status::from_code(");
    let code: String = decimal_string(e.code);
    s.append(code.as_str());
    s.append(").unwrap(),\n");
    proof {
        assert(s@ =~= forward_arm_text(enum_name@, *e));
    }
    s
}

fn forward_arms(enum_name: &str, entries: &Vec<Entry>) -> (r: String)
    ensures
        r@ == forward_arms_text(enum_name@, entries@),
{
    let n: usize = entries.len();
    let mut out: String = String::new();
    let mut i: usize = 0;
    proof {
        assert(entries@.take(0) =~= Seq::<Entry>::empty());
    }
    while i < n
        invariant
            i <= n,
            n == entries@.len(),
            out@ == forward_arms_text(enum_name@, entries@.take(i as int)),
        decreases n - i,
    {
        let arm: String = forward_arm(enum_name, &entries[i]);
        out.append(arm.as_str());
        proof {
            assert(entries@.take(i as int + 1).drop_last() =~= entries@.take(i as int));
            assert(entries@.take(i as int + 1).last() == entries@[i as int]);
        }
        i = i + 1;
    }
    proof {
        assert(entries@.take(n as int) =~= entries@);
    }
    out
}

fn reverse_arm(enum_name: &str, e: &Entry) -> (r: String)
    ensures
        r@ == reverse_arm_text(enum_name@, *e),
{
    let mut s: String = "            ".to_owned();
    let code: String = decimal_string(e.code);
    s.append(code.as_str());
    s.append(" => Some(");
    s.append(enum_name);
    s.append("::");
    s.append(e.variant.as_str());
    s.append("),\n");
    proof {
        assert(s@ =~= reverse_arm_text(enum_name@, *e));
    }
    s
}

fn reverse_arms(enum_name: &str, entries: &Vec<Entry>) -> (r: String)
    ensures
        r@ == reverse_arms_text(enum_name@, entries@),
{
    let n: usize = entries.len();
    let mut out: String = String::new();
    let mut i: usize = 0;
    proof {
        assert(entries@.take(0) =~= Seq::<Entry>::empty());
    }
    while i < n
        invariant
            i <= n,
            n == entries@.len(),
            out@ == reverse_arms_text(enum_name@, entries@.take(i as int)),
        decreases n - i,
    {
        let arm: String = reverse_arm(enum_name, &entries[i]);
        out.append(arm.as_str());
        proof {
            assert(entries@.take(i as int + 1).drop_last() =~= entries@.take(i as int));
            assert(entries@.take(i as int + 1).last() == entries@[i as int]);
        }
        i = i + 1;
    }
    proof {
        assert(entries@.take(n as int) =~= entries@);
    }
    out
}

/// Emits the total forward conversion for the mapping.
pub fn emit_forward_conversion(enum_name: &str, m: &CodeMapping) -> (a: Artifact)
    ensures
        a.kind == ArtifactKind::Conversion,
        a.bound_to@ == enum_name@,
        a.body@ == forward_impl_text(enum_name@, m.entries@),
{
    let mut body: String = "impl From<".to_owned();
    body.append(enum_name);
    body.append("> for rocket::http::Status {\n    fn from(error: ");
    body.append(enum_name);
    body.append(") -> rocket::http::Status {\n        match error {\n");
    let arms: String = forward_arms(enum_name, &m.entries);
    body.append(arms.as_str());
    body.append("        }\n    }\n}\n");
    proof {
        assert(body@ =~= forward_impl_text(enum_name@, m.entries@));
    }
    Artifact { kind: ArtifactKind::Conversion, bound_to: enum_name.to_owned(), body }
}

/// Emits the partial reverse conversion for the mapping.
pub fn emit_reverse_conversion(enum_name: &str, m: &CodeMapping) -> (a: Artifact)
    ensures
        a.kind == ArtifactKind::Conversion,
        a.bound_to@ == enum_name@,
        a.body@ == reverse_impl_text(enum_name@, m.entries@),
{
    let mut body: String = "impl Into<".to_owned();
    body.append(enum_name);
    body.append("> for rocket::http::Status {\n    fn into(self) -> ");
    body.append(enum_name);
    body.append(" {\n        let code = self.code;\n        let found = match code {\n");
    let arms: String = reverse_arms(enum_name, &m.entries);
    body.append(arms.as_str());
    body.append(
        "            _ => None,\n        };\n        found.expect(\"no variant for status code\")\n    }\n}\n",
    );
    proof {
        assert(body@ =~= reverse_impl_text(enum_name@, m.entries@));
    }
    Artifact { kind: ArtifactKind::Conversion, bound_to: enum_name.to_owned(), body }
}

/// Emits the reverse conversion from an incoming status and request
/// context.
pub fn emit_request_conversion(enum_name: &str, m: &CodeMapping) -> (a: Artifact)
    ensures
        a.kind == ArtifactKind::Conversion,
        a.bound_to@ == enum_name@,
        a.body@ == request_impl_text(enum_name@, m.entries@),
{
    let mut body: String = "impl From<(rocket::http::Status, &rocket::Request<'_>)> for ".to_owned();
    body.append(enum_name);
    body.append(" {\n    fn from((status, req): (rocket::http::Status, &rocket::Request<'_>)) -> ");
    body.append(enum_name);
    body.append(" {\n        let code = status.code;\n        let found = match code {\n");
    let arms: String = reverse_arms(enum_name, &m.entries);
    body.append(arms.as_str());
    body.append(
        "            _ => None,\n        };\n        found.expect(\"no variant for status code\")\n    }\n}\n",
    );
    proof {
        assert(body@ =~= request_impl_text(enum_name@, m.entries@));
    }
    Artifact { kind: ArtifactKind::Conversion, bound_to: enum_name.to_owned(), body }
}

/// Emits the error-interface binding of the enum to its payload type.
pub fn emit_respondable_binding(enum_name: &str) -> (a: Artifact)
    ensures
        a.kind == ArtifactKind::TraitImpl,
        a.bound_to@ == enum_name@,
        a.body@ == respondable_impl_text(enum_name@),
{
    let mut body: String = "impl Respondable<".to_owned();
    body.append(enum_name);
    body.append("> for ");
    body.append(enum_name);
    body.append(" {\n    type Payload = rocket::http::Status;\n}\n");
    proof {
        assert(body@ =~= respondable_impl_text(enum_name@));
    }
    Artifact { kind: ArtifactKind::TraitImpl, bound_to: enum_name.to_owned(), body }
}

/// Emits the responder adapter for an error enum. Rejects any declaration
/// that is not an enum.
pub fn derive_to_responder(decl: &TypeDeclaration) -> (r: Result<Artifact, GenError>)
    ensures
        r is Ok <==> decl.kind == DeclKind::Enum,
        r matches Ok(a) ==> {
            &&& a.kind == ArtifactKind::TraitImpl
            &&& a.bound_to@ == decl.name@
            &&& a.body@ == responder_impl_text(decl.name@)
        },
        r matches Err(e) ==> e == GenError::UnsupportedShape,
{
    match require_enum(decl) {
        Ok(_) => {},
        Err(e) => {
            return Err(e);
        },
    }
    let mut body: String = "impl<'r> rocket::response::Responder<'r, 'static> for ".to_owned();
    body.append(decl.name.as_str());
    body.append(
        " {\n    fn respond_to(self, req: &'r rocket::Request<'_>) -> rocket::response::Result<'static> {\n        let status: rocket::http::Status = self.into();\n        return status.respond_to(req);\n    }\n}\n",
    );
    proof {
        assert(body@ =~= responder_impl_text(decl.name@));
    }
    Ok(Artifact { kind: ArtifactKind::TraitImpl, bound_to: decl.name.clone(), body })
}

/// Extracts the quota rate of a struct declaration: the integer `rate`
/// annotation of the first field carrying one. Rejects a non-struct
/// declaration and a struct with no rate-annotated field.
pub fn quota_rate(decl: &TypeDeclaration) -> (r: Result<u64, GenError>)
    ensures
        r is Ok <==> decl.kind == DeclKind::Struct && spec_find_rate(decl.members@) is Some,
        r matches Ok(n) ==> Some(n) == spec_find_rate(decl.members@),
        r matches Err(e) ==> e == (if decl.kind != DeclKind::Struct {
            GenError::UnsupportedShape
        } else {
            GenError::MissingAnnotation
        }),
{
    match require_struct(decl) {
        Ok(_) => {},
        Err(e) => {
            return Err(e);
        },
    }
    match find_rate(&decl.members) {
        Some(rate) => Ok(rate),
        None => Err(GenError::MissingAnnotation),
    }
}

/// Emits the quota function for a rate-annotated struct.
pub fn limiter_macro(decl: &TypeDeclaration) -> (r: Result<Artifact, GenError>)
    ensures
        r is Ok <==> decl.kind == DeclKind::Struct && spec_find_rate(decl.members@) is Some,
        r matches Ok(a) ==> {
            &&& a.kind == ArtifactKind::TraitImpl
            &&& a.bound_to@ == decl.name@
            &&& a.body@ == quota_impl_text(
                decl.name@,
                spec_find_rate(decl.members@).unwrap() as nat,
            )
        },
        r matches Err(e) ==> e == (if decl.kind != DeclKind::Struct {
            GenError::UnsupportedShape
        } else {
            GenError::MissingAnnotation
        }),
{
    let rate: u64 = match quota_rate(decl) {
        Ok(rate) => rate,
        Err(e) => {
            return Err(e);
        },
    };
    let mut body: String = "impl<'r> RocketGovernable<'r> for ".to_owned();
    body.append(decl.name.as_str());
    body.append(
        " {\n    fn quota(_method: Method, _route_name: &str) -> Quota {\n        Quota::per_second(Self::nonzero(",
    );
    let rate_text: String = decimal_string(rate);
    body.append(rate_text.as_str());
    body.append("))\n    }\n}\n");
    proof {
        assert(body@ =~= quota_impl_text(decl.name@, rate as nat));
    }
    Ok(Artifact { kind: ArtifactKind::TraitImpl, bound_to: decl.name.clone(), body })
}

/// Parses a flat keyword token sequence and emits the state binding it
/// requests: the pure type's inner storage becomes a shared handle over
/// the guts type, and the pure type gains the yield capability.
pub fn make_stateful(tokens: &Vec<Token>) -> (r: Result<Artifact, GenError>)
    ensures
        r is Ok <==> spec_all_bound(tokens@),
        r matches Ok(a) ==> {
            &&& a.kind == ArtifactKind::TraitImpl
            &&& Some(a.bound_to@) == spec_find_binding(tokens@, Kw::Pure)
            &&& a.body@ == state_binding_text(
                spec_find_binding(tokens@, Kw::Guts).unwrap(),
                spec_find_binding(tokens@, Kw::Pure).unwrap(),
                spec_find_binding(tokens@, Kw::Yield).unwrap(),
            )
        },
        r matches Err(e) ==> e == GenError::MalformedGrammar,
{
    let req = match parse_request(tokens) {
        Ok(req) => req,
        Err(e) => {
            return Err(e);
        },
    };
    let mut body: String = "impl BlastState for ".to_owned();
    body.append(req.pure_ident.as_str());
    body.append(" {\n    type Inner = Arc<");
    body.append(req.guts_ident.as_str());
    body.append(">;\n}\nimpl ");
    body.append(req.yield_ident.as_str());
    body.append(" for ");
    body.append(req.pure_ident.as_str());
    body.append(" {}\n");
    proof {
        assert(body@ =~= state_binding_text(req.guts_ident@, req.pure_ident@, req.yield_ident@));
    }
    Ok(Artifact { kind: ArtifactKind::TraitImpl, bound_to: req.pure_ident, body })
}

} // verus!
