use blast::compose::{catchers, maperr};
use blast::mapping::{build_mapping, forward, lookup_code, lookup_variant, reverse};
use blast::model::{
    Annotation, ArtifactKind, CodeMapping, DeclKind, Entry, GenError, Kw, Literal, Member, Token,
    TypeDeclaration,
};
use blast::synth::{derive_to_responder, limiter_macro, make_stateful, quota_rate};
use blast::text::decimal_string;

fn entry(variant: &str, code: u64) -> Entry {
    Entry { variant: variant.to_string(), code }
}

fn member_with(identifier: &str, marker: &str, payload: Option<Literal>) -> Member {
    Member {
        identifier: identifier.to_string(),
        annotations: vec![Annotation { marker: marker.to_string(), payload }],
    }
}

fn give_member(identifier: &str, code: u64) -> Member {
    member_with(identifier, "give", Some(Literal::Int(code)))
}

fn my_err_mapping() -> CodeMapping {
    CodeMapping { entries: vec![entry("NotFound", 404), entry("InternalError", 500)] }
}

#[test]
fn decimal_rendering() {
    assert_eq!(decimal_string(0), "0");
    assert_eq!(decimal_string(5), "5");
    assert_eq!(decimal_string(10), "10");
    assert_eq!(decimal_string(404), "404");
    assert_eq!(decimal_string(18446744073709551615), "18446744073709551615");
}

#[test]
fn empty_mapping_emits_no_arms() {
    let m = CodeMapping { entries: vec![] };
    let artifacts = maperr("MyErr", &m);
    assert_eq!(
        artifacts[0].body,
        "impl From<MyErr> for rocket::http::Status {\n    fn from(error: MyErr) -> rocket::http::Status {\n        match error {\n        }\n    }\n}\n"
    );
    assert_eq!(
        artifacts[1].body,
        "impl Into<MyErr> for rocket::http::Status {\n    fn into(self) -> MyErr {\n        let code = self.code;\n        let found = match code {\n            _ => None,\n        };\n        found.expect(\"no variant for status code\")\n    }\n}\n"
    );
}

#[test]
fn forward_and_reverse_conversions() {
    let m = my_err_mapping();
    assert_eq!(forward(&m, &"NotFound".to_string()), 404);
    assert_eq!(forward(&m, &"InternalError".to_string()), 500);
    assert_eq!(reverse(&m, 404), "NotFound");
    assert_eq!(reverse(&m, 500), "InternalError");
    assert_eq!(lookup_variant(&m, 999), None);
    assert_eq!(lookup_code(&m, &"Absent".to_string()), None);
}

#[test]
fn round_trip_through_both_conversions() {
    let m = my_err_mapping();
    for e in &m.entries {
        assert_eq!(reverse(&m, forward(&m, &e.variant)), e.variant);
    }
}

#[test]
fn stray_tokens_are_skipped() {
    let mut tokens = vec![Token::Lit(Literal::Int(7)), Token::Comma];
    tokens.extend(guts_pure_yield(&[
        (Kw::Guts, "Inner"),
        (Kw::Pure, "Outer"),
        (Kw::Yield, "Marker"),
    ]));
    let a = make_stateful(&tokens).unwrap();
    assert_eq!(a.bound_to, "Outer");
}

#[test]
fn mapping_from_annotated_enum() {
    let decl = TypeDeclaration {
        name: "MyErr".to_string(),
        kind: DeclKind::Enum,
        members: vec![give_member("NotFound", 404), give_member("InternalError", 500)],
    };
    let m = build_mapping(&decl).unwrap();
    assert_eq!(m.entries.len(), 2);
    assert_eq!(m.entries[0].variant, "NotFound");
    assert_eq!(m.entries[0].code, 404);
    assert_eq!(m.entries[1].variant, "InternalError");
    assert_eq!(m.entries[1].code, 500);
}

#[test]
fn mapping_rejects_wrong_shape() {
    let decl = TypeDeclaration {
        name: "NotAnEnum".to_string(),
        kind: DeclKind::Struct,
        members: vec![give_member("field", 404)],
    };
    assert_eq!(build_mapping(&decl).unwrap_err(), GenError::UnsupportedShape);
}

#[test]
fn mapping_rejects_uncoded_variant() {
    let decl = TypeDeclaration {
        name: "MyErr".to_string(),
        kind: DeclKind::Enum,
        members: vec![
            give_member("NotFound", 404),
            Member { identifier: "Uncoded".to_string(), annotations: vec![] },
        ],
    };
    assert_eq!(build_mapping(&decl).unwrap_err(), GenError::MissingAnnotation);
}

#[test]
fn extra_markers_are_ignored() {
    let decl = TypeDeclaration {
        name: "MyErr".to_string(),
        kind: DeclKind::Enum,
        members: vec![Member {
            identifier: "NotFound".to_string(),
            annotations: vec![
                Annotation {
                    marker: "error".to_string(),
                    payload: Some(Literal::Str("Not found".to_string())),
                },
                Annotation { marker: "give".to_string(), payload: Some(Literal::Int(404)) },
            ],
        }],
    };
    let m = build_mapping(&decl).unwrap();
    assert_eq!(m.entries[0].code, 404);
}

#[test]
fn forward_conversion_text() {
    let m = my_err_mapping();
    let artifacts = maperr("MyErr", &m);
    assert_eq!(artifacts.len(), 4);
    assert_eq!(artifacts[0].kind, ArtifactKind::Conversion);
    assert_eq!(artifacts[0].bound_to, "MyErr");
    assert_eq!(
        artifacts[0].body,
        "impl From<MyErr> for rocket::http::Status {\n    fn from(error: MyErr) -> rocket::http::Status {\n        match error {\n            MyErr::NotFound => rocket::http::Status::from_code(404).unwrap(),\n            MyErr::InternalError => rocket::http::Status::from_code(500).unwrap(),\n        }\n    }\n}\n"
    );
}

#[test]
fn reverse_conversion_text() {
    let m = my_err_mapping();
    let artifacts = maperr("MyErr", &m);
    assert_eq!(
        artifacts[1].body,
        "impl Into<MyErr> for rocket::http::Status {\n    fn into(self) -> MyErr {\n        let code = self.code;\n        let found = match code {\n            404 => Some(MyErr::NotFound),\n            500 => Some(MyErr::InternalError),\n            _ => None,\n        };\n        found.expect(\"no variant for status code\")\n    }\n}\n"
    );
    assert_eq!(
        artifacts[2].body,
        "impl From<(rocket::http::Status, &rocket::Request<'_>)> for MyErr {\n    fn from((status, req): (rocket::http::Status, &rocket::Request<'_>)) -> MyErr {\n        let code = status.code;\n        let found = match code {\n            404 => Some(MyErr::NotFound),\n            500 => Some(MyErr::InternalError),\n            _ => None,\n        };\n        found.expect(\"no variant for status code\")\n    }\n}\n"
    );
    assert_eq!(
        artifacts[3].body,
        "impl Respondable<MyErr> for MyErr {\n    type Payload = rocket::http::Status;\n}\n"
    );
}

#[test]
fn responder_adapter_text() {
    let decl = TypeDeclaration {
        name: "MyErr".to_string(),
        kind: DeclKind::Enum,
        members: vec![],
    };
    let a = derive_to_responder(&decl).unwrap();
    assert_eq!(a.kind, ArtifactKind::TraitImpl);
    assert_eq!(a.bound_to, "MyErr");
    assert_eq!(
        a.body,
        "impl<'r> rocket::response::Responder<'r, 'static> for MyErr {\n    fn respond_to(self, req: &'r rocket::Request<'_>) -> rocket::response::Result<'static> {\n        let status: rocket::http::Status = self.into();\n        return status.respond_to(req);\n    }\n}\n"
    );
}

#[test]
fn responder_adapter_needs_enum() {
    let decl = TypeDeclaration {
        name: "NotAnEnum".to_string(),
        kind: DeclKind::Struct,
        members: vec![],
    };
    assert_eq!(derive_to_responder(&decl).unwrap_err(), GenError::UnsupportedShape);
}

#[test]
fn quota_from_rate_annotation() {
    let decl = TypeDeclaration {
        name: "RateGuard".to_string(),
        kind: DeclKind::Struct,
        members: vec![member_with("limit", "rate", Some(Literal::Int(5)))],
    };
    assert_eq!(quota_rate(&decl).unwrap(), 5);
    let a = limiter_macro(&decl).unwrap();
    assert_eq!(a.bound_to, "RateGuard");
    assert_eq!(
        a.body,
        "impl<'r> RocketGovernable<'r> for RateGuard {\n    fn quota(_method: Method, _route_name: &str) -> Quota {\n        Quota::per_second(Self::nonzero(5))\n    }\n}\n"
    );
}

#[test]
fn quota_needs_rate_annotation() {
    let decl = TypeDeclaration {
        name: "RateGuard".to_string(),
        kind: DeclKind::Struct,
        members: vec![Member { identifier: "limit".to_string(), annotations: vec![] }],
    };
    assert_eq!(quota_rate(&decl).unwrap_err(), GenError::MissingAnnotation);
    assert_eq!(limiter_macro(&decl).unwrap_err(), GenError::MissingAnnotation);
}

#[test]
fn quota_needs_struct() {
    let decl = TypeDeclaration {
        name: "MyErr".to_string(),
        kind: DeclKind::Enum,
        members: vec![member_with("limit", "rate", Some(Literal::Int(5)))],
    };
    assert_eq!(quota_rate(&decl).unwrap_err(), GenError::UnsupportedShape);
}

fn guts_pure_yield(order: &[(Kw, &str)]) -> Vec<Token> {
    let mut tokens = Vec::new();
    for (kw, ident) in order {
        tokens.push(Token::Keyword(*kw));
        tokens.push(Token::Ident(ident.to_string()));
        tokens.push(Token::Comma);
    }
    tokens
}

#[test]
fn state_binding_in_declared_order() {
    let tokens = guts_pure_yield(&[(Kw::Guts, "Inner"), (Kw::Pure, "Outer"), (Kw::Yield, "Marker")]);
    let a = make_stateful(&tokens).unwrap();
    assert_eq!(a.bound_to, "Outer");
    assert_eq!(
        a.body,
        "impl BlastState for Outer {\n    type Inner = Arc<Inner>;\n}\nimpl Marker for Outer {}\n"
    );
}

#[test]
fn state_binding_in_any_order() {
    let reordered =
        guts_pure_yield(&[(Kw::Pure, "Outer"), (Kw::Guts, "Inner"), (Kw::Yield, "Marker")]);
    let a = make_stateful(&reordered).unwrap();
    assert_eq!(
        a.body,
        "impl BlastState for Outer {\n    type Inner = Arc<Inner>;\n}\nimpl Marker for Outer {}\n"
    );
}

#[test]
fn state_binding_missing_keyword() {
    let tokens = guts_pure_yield(&[(Kw::Guts, "Inner"), (Kw::Pure, "Outer")]);
    assert_eq!(make_stateful(&tokens).unwrap_err(), GenError::MalformedGrammar);
    let none: Vec<Token> = vec![];
    assert_eq!(make_stateful(&none).unwrap_err(), GenError::MalformedGrammar);
}

#[test]
fn keyword_at_end_stays_unbound() {
    let mut tokens =
        guts_pure_yield(&[(Kw::Guts, "Inner"), (Kw::Pure, "Outer")]);
    tokens.push(Token::Keyword(Kw::Yield));
    assert_eq!(make_stateful(&tokens).unwrap_err(), GenError::MalformedGrammar);
}

#[test]
fn handlers_one_per_triple_plus_default() {
    let m = CodeMapping {
        entries: vec![
            entry("UnlockError", 503),
            entry("GetError", 404),
            entry("PutError", 500),
            entry("ServerError", 501),
            entry("BadRequest", 400),
        ],
    };
    let mut triples = Vec::new();
    for e in &m.entries {
        triples.push(blast::model::HandlerSpec {
            name: blast::casing::snake_case_catcher(&e.variant),
            variant: e.variant.clone(),
            code: e.code,
        });
    }
    let artifacts = catchers("AppError", &triples);
    assert_eq!(artifacts.len(), triples.len() + 1);
    assert_eq!(artifacts[0].bound_to, "default_catcher");
    assert_eq!(
        artifacts[0].body,
        "#[catch(default)]\npub async fn default_catcher(status: rocket::http::Status, req: &rocket::Request<'_>) -> AppError {\n    return AppError::from((status, req));\n}\n"
    );
    assert_eq!(artifacts[1].bound_to, "unlock_error_catcher");
    assert_eq!(
        artifacts[2].body,
        "#[catch(404)]\npub async fn get_error_catcher(req: &rocket::Request<'_>) -> AppError {\n    return AppError::from((rocket::http::Status::from_code(404).unwrap(), req));\n}\n"
    );
    for (i, t) in triples.iter().enumerate() {
        assert_eq!(artifacts[i + 1].kind, ArtifactKind::Function);
        assert_eq!(artifacts[i + 1].bound_to, t.name);
        assert!(artifacts[i + 1].body.contains(&format!("from_code({})", t.code)));
    }
}

#[test]
fn snake_case_handler_names() {
    assert_eq!(blast::casing::snake_case_catcher("NotFound"), "not_found_catcher");
    assert_eq!(
        blast::casing::snake_case_catcher("InternalServerError"),
        "internal_server_error_catcher"
    );
    assert_eq!(blast::casing::catcher_suffixed("not_found"), "not_found_catcher");
}
