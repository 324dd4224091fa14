//! The state interface: a stateful type declares an associated inner
//! storage type; the generated state binding points that storage at a
//! shared-ownership handle over the backing type.

use vstd::prelude::*;

verus! {

/// A type eligible for the generated state binding: it declares the inner
/// storage its values delegate to.
pub trait State where
    Self: Sized + Send + Sync + 'static,
    Self::Inner: Sized + Send + Sync + 'static,
 {
    type Inner;
}

} // verus!
