//! The structural validator: declaration-shape preconditions enforced
//! before any synthesis, so that the synthesizer never observes an
//! ill-shaped declaration.

use vstd::prelude::*;

use crate::model::{DeclKind, GenError, TypeDeclaration};

verus! {

/// Accepts an enum declaration, rejects any other shape.
pub fn require_enum(decl: &TypeDeclaration) -> (r: Result<(), GenError>)
    ensures
        r is Ok <==> decl.kind == DeclKind::Enum,
        r matches Err(e) ==> e == GenError::UnsupportedShape,
{
    match decl.kind {
        DeclKind::Enum => Ok(()),
        DeclKind::Struct => Err(GenError::UnsupportedShape),
    }
}

/// Accepts a struct declaration with named fields, rejects any other shape.
pub fn require_struct(decl: &TypeDeclaration) -> (r: Result<(), GenError>)
    ensures
        r is Ok <==> decl.kind == DeclKind::Struct,
        r matches Err(e) ==> e == GenError::UnsupportedShape,
{
    match decl.kind {
        DeclKind::Struct => Ok(()),
        DeclKind::Enum => Err(GenError::UnsupportedShape),
    }
}

} // verus!
