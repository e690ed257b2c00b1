//! Stock validators.

use vstd::prelude::*;

use crate::access::RequestMetadata;
use crate::errors::ServerError;
use crate::request::Request;
use crate::validation::ValidatorSpec;

verus! {

/// A test on the operation payload, supplied at route registration.
pub trait PayloadTest<T> {
    fn test(&self, data: &T) -> bool;
}

/// The `AdminOnly` rule proper, on the predicate's outcome: a payload the
/// predicate flags needs an authenticated admin caller; any other payload
/// passes unconditionally.
pub fn admin_only_decision(applies: bool, metadata: &RequestMetadata) -> (r: Result<
    (),
    ServerError,
>)
    ensures
        r is Ok <==> (!applies || (metadata.is_authenticated && metadata.is_admin)),
        r matches Err(e) ==> e.behavior is ReturnUnauthorized,
{
    if applies {
        if metadata.is_authenticated && metadata.is_admin {
            Ok(())
        } else {
            Err(ServerError::unauthorized())
        }
    } else {
        Ok(())
    }
}

/// Requires an admin caller whenever the given predicate holds of the
/// operation payload; payloads the predicate rejects pass unconditionally.
pub struct AdminOnly<P> {
    predicate: P,
}

impl<P> AdminOnly<P> {
    /// Builds the rule around its predicate.
    pub fn if_true(predicate: P) -> (v: AdminOnly<P>) {
        AdminOnly { predicate }
    }
}

impl<T, P: PayloadTest<T>> ValidatorSpec<T> for AdminOnly<P> {
    fn validate(
        &self,
        request: &Request,
        data: &T,
        metadata: &RequestMetadata,
    ) -> Result<(), ServerError> {
        admin_only_decision(self.predicate.test(data), metadata)
    }
}

} // verus!
