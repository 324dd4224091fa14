//! An application error enum wired into the generator: each variant is
//! bound to a status code, the enum satisfies the error interface, and its
//! declaration carries the `give` annotations the extractor reads.

use vstd::prelude::*;

use crate::error::{Error, Respondable};
use crate::mapping::spec_give_code;
use crate::model::{Annotation, DeclKind, Literal, Member, TypeDeclaration};

verus! {

/// The example application error enum.
#[derive(Clone, Copy, Debug, PartialEq, Eq, Structural)]
pub enum AppError {
    /// failed to unlock a connection from the pool.
    UnlockError,
    /// failed a message GET request.
    GetError,
    /// failed a message POST/PUT request.
    PutError,
    /// internal server error.
    ServerError,
    /// failed to decode a message into a valid request.
    BadRequest,
}

impl AppError {
    /// The status code each variant is bound to.
    pub open spec fn spec_status_code(self) -> u16 {
        match self {
            AppError::UnlockError => 503,
            AppError::GetError => 404,
            AppError::PutError => 500,
            AppError::ServerError => 500,
            AppError::BadRequest => 400,
        }
    }

    /// The forward conversion of this enum: total over its variants.
    pub fn status_code(self) -> (r: u16)
        ensures
            r == self.spec_status_code(),
    {
        match self {
            AppError::UnlockError => 503,
            AppError::GetError => 404,
            AppError::PutError => 500,
            AppError::ServerError => 500,
            AppError::BadRequest => 400,
        }
    }
}

impl Error for AppError {

}

impl From<AppError> for u16 {
    fn from(e: AppError) -> (r: u16) {
        e.status_code()
    }
}

impl vstd::std_specs::convert::FromSpecImpl<AppError> for u16 {
    open spec fn obeys_from_spec() -> bool {
        true
    }

    open spec fn from_spec(e: AppError) -> u16 {
        e.spec_status_code()
    }
}

impl Respondable<AppError> for AppError {
    type Payload = u16;
}

fn give_member(name: &str, code: u64) -> (m: Member)
    ensures
        m.identifier@ == name@,
        spec_give_code(m) == Some(code),
{
    let mut annotations: Vec<Annotation> = Vec::new();
    annotations.push(Annotation { marker: "give".to_owned(), payload: Some(Literal::Int(code)) });
    let m = Member { identifier: name.to_owned(), annotations };
    proof {
        assert(crate::extract::spec_find_annotation(m.annotations@, "give"@) == Some(
            m.annotations@[0],
        ));
    }
    m
}

impl AppError {
    /// The declaration the generator reads for this enum: every variant
    /// carries a `give` annotation holding its own status code.
    pub fn declaration() -> (d: TypeDeclaration)
        ensures
            d.kind == DeclKind::Enum,
            d.name@ == "AppError"@,
            d.members@.len() == 5,
            d.members@[0].identifier@ == "UnlockError"@ && spec_give_code(d.members@[0]) == Some(
                AppError::UnlockError.spec_status_code() as u64,
            ),
            d.members@[1].identifier@ == "GetError"@ && spec_give_code(d.members@[1]) == Some(
                AppError::GetError.spec_status_code() as u64,
            ),
            d.members@[2].identifier@ == "PutError"@ && spec_give_code(d.members@[2]) == Some(
                AppError::PutError.spec_status_code() as u64,
            ),
            d.members@[3].identifier@ == "ServerError"@ && spec_give_code(d.members@[3]) == Some(
                AppError::ServerError.spec_status_code() as u64,
            ),
            d.members@[4].identifier@ == "BadRequest"@ && spec_give_code(d.members@[4]) == Some(
                AppError::BadRequest.spec_status_code() as u64,
            ),
    {
        let mut members: Vec<Member> = Vec::new();
        members.push(give_member("UnlockError", 503));
        members.push(give_member("GetError", 404));
        members.push(give_member("PutError", 500));
        members.push(give_member("ServerError", 500));
        members.push(give_member("BadRequest", 400));
        TypeDeclaration { name: "AppError".to_owned(), kind: DeclKind::Enum, members }
    }
}

} // verus!
