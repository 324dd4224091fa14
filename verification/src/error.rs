//! The error interface: the capability contracts an application error type
//! satisfies to take part in generation, and the wrapper that turns such an
//! error into a payload for the client.

use vstd::prelude::*;
use vstd::std_specs::convert::FromSpec;

verus! {

/// A very simple and extendable error interface.
pub trait Error where Self: Clone + core::fmt::Debug + Sized + PartialEq + Eq + 'static {

}

/// Wraps an `Error` interface in a type that can be passed back to the
/// client.
pub trait Respondable<E: Error> where Self: Sized, Self::Payload: From<Self> {
    type Payload: From<E>;

    fn wrap(self) -> (r: Self::Payload)
        ensures
            <Self::Payload as FromSpec<Self>>::obeys_from_spec() ==> r == <Self::Payload as FromSpec<
                Self,
            >>::from_spec(self),
    {
        From::from(self)
    }
}

} // verus!
