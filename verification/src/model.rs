//! The data model: type declarations and their annotations, the flat
//! keyword grammar's tokens, code mappings, generation requests and the
//! synthesized artifacts, together with the generation error taxonomy.

use vstd::prelude::*;

verus! {

/// A literal payload carried by an annotation: an integer or a string.
#[derive(Clone, Debug)]
pub enum Literal {
    Int(u64),
    Str(String),
}

/// A marker annotation attached to a declaration member: a marker name and
/// an optional literal payload, as in `give(503)` or `rate(5)`.
#[derive(Clone, Debug)]
pub struct Annotation {
    pub marker: String,
    pub payload: Option<Literal>,
}

/// One member of a type declaration: an enum variant or a named struct
/// field, with the annotations attached to it, in declaration order.
#[derive(Clone, Debug)]
pub struct Member {
    pub identifier: String,
    pub annotations: Vec<Annotation>,
}

/// The shape of a type declaration: an enum, or a struct with named fields.
#[derive(Clone, Copy, Debug, PartialEq, Eq, Structural)]
pub enum DeclKind {
    Enum,
    Struct,
}

/// A type declaration as handed to the generator: its name, its shape and
/// its members in declaration order.
#[derive(Clone, Debug)]
pub struct TypeDeclaration {
    pub name: String,
    pub kind: DeclKind,
    pub members: Vec<Member>,
}

/// Why a generation step was rejected. Every failure is fatal to the whole
/// generation: there is no partial output.
#[derive(Clone, Copy, Debug, PartialEq, Eq, Structural)]
pub enum GenError {
    /// A required marker annotation is absent from a member that needs it.
    MissingAnnotation,
    /// The declaration is not of the required shape.
    UnsupportedShape,
    /// The flat token sequence leaves a required keyword unbound.
    MalformedGrammar,
}

/// A keyword of the flat invocation grammar.
#[derive(Clone, Copy, Debug, PartialEq, Eq, Structural)]
pub enum Kw {
    Guts,
    Pure,
    Yield,
}

/// One token of the flat invocation grammar: a keyword marker, an
/// identifier, a literal, or a comma separator.
#[derive(Clone, Debug)]
pub enum Token {
    Keyword(Kw),
    Ident(String),
    Lit(Literal),
    Comma,
}

/// A parsed generation request: the identifier bound to each of the three
/// required keywords.
#[derive(Clone, Debug)]
pub struct GenerationRequest {
    pub guts_ident: String,
    pub pure_ident: String,
    pub yield_ident: String,
}

/// One entry of a code mapping: a variant identifier and the status code
/// it is bound to. The code is deliberately an unvalidated integer.
#[derive(Clone, Debug)]
pub struct Entry {
    pub variant: String,
    pub code: u64,
}

/// The bidirectional association between an enum's variants and numeric
/// status codes, in declaration order.
#[derive(Clone, Debug)]
pub struct CodeMapping {
    pub entries: Vec<Entry>,
}

/// One registered handler: the handler function's name, the variant it is
/// bound to, and the status code it catches.
#[derive(Clone, Debug)]
pub struct HandlerSpec {
    pub name: String,
    pub variant: String,
    pub code: u64,
}

/// What kind of source fragment an artifact is.
#[derive(Clone, Copy, Debug, PartialEq, Eq, Structural)]
pub enum ArtifactKind {
    Conversion,
    TraitImpl,
    Function,
}

/// A synthesized source fragment: its kind, the name it is bound to, and
/// its body text. Created once and never mutated.
#[derive(Clone, Debug)]
pub struct Artifact {
    pub kind: ArtifactKind,
    pub bound_to: String,
    pub body: String,
}

} // verus!
