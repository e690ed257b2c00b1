//! Function route resolvers: the simpler siblings of the CRUD resolver for
//! nullary and unary operations, in non-owned and owned forms.

use vstd::prelude::*;

use crate::access::Access;
use crate::access::OwnedAccess;
use crate::access::RequestMetadata;
use crate::access::is_allowed_access;
use crate::access::is_allowed_owned_access;
use crate::access::preliminary_access_check;
use crate::access::spec_allowed;
use crate::access::spec_allowed_owned;
use crate::access::spec_preliminary;
use crate::access::view_owner;
use crate::errors::ServerError;
use crate::request::Request;
use crate::validation::Validation;

verus! {

/// Typed input parsing for a unary function route, supplied by the route's
/// registrant (ordinarily a JSON deserializer for the input type).
pub trait InputCodec<I> {
    /// Parses the body as the route's input.
    fn parse_input(&self, body: &str) -> Result<I, ServerError>;
}

/// Owner resolution for a unary owned function route: every input names its
/// owner.
pub trait InputOwner<I> {
    /// The owner subject the input belongs to.
    fn owner_of(&self, input: &I) -> String;
}

/// A function route with no input: authorization against the identity alone
/// decides everything. The validation chain is accepted at registration for
/// uniformity with CRUD routes, which are the chain's consumers.
pub struct NullaryFunction<V> {
    pub access: Access,
    pub validation: Validation<V>,
}

impl<V> NullaryFunction<V> {
    /// Registers the route pieces.
    pub fn new(access: Access, validation: Validation<V>) -> (s: Self)
        ensures
            s.access == access,
            s.validation == validation,
    {
        NullaryFunction { access, validation }
    }

    /// Authorizes the call: succeeds exactly when the route's level admits
    /// the caller.
    pub fn resolve(&self, request: &Request, metadata: &RequestMetadata) -> (r: Result<
        (),
        ServerError,
    >)
        ensures
            r is Ok <==> spec_allowed(*metadata, self.access),
            r matches Err(e) ==> e.behavior is ReturnUnauthorized,
    {
        if !is_allowed_access(metadata, &self.access) {
            return Err(ServerError::unauthorized());
        }
        Ok(())
    }
}

/// A function route taking one typed input; non-owned, so authorization
/// depends on the identity alone and runs before the body is parsed.
pub struct Function<C, V> {
    pub access: Access,
    pub validation: Validation<V>,
    pub codec: C,
}

impl<C, V> Function<C, V> {
    /// Registers the route pieces.
    pub fn new(access: Access, validation: Validation<V>, codec: C) -> (s: Self)
        ensures
            s.access == access,
            s.validation == validation,
            s.codec == codec,
    {
        Function { access, validation, codec }
    }

    /// Authorizes the call and parses its input: a denied caller is always
    /// rejected, before the body is touched, and an admitted input was
    /// allowed by the route's level.
    pub fn resolve<I>(&self, request: &Request, metadata: &RequestMetadata) -> (r: Result<
        I,
        ServerError,
    >) where C: InputCodec<I>
        ensures
            !spec_allowed(*metadata, self.access) ==> (r matches Err(e)
                && e.behavior is ReturnUnauthorized),
            r is Ok ==> spec_allowed(*metadata, self.access),
    {
        if !is_allowed_access(metadata, &self.access) {
            return Err(ServerError::unauthorized());
        }
        self.codec.parse_input(request.body_str())
    }
}

/// A function route taking one typed input whose access decision compares
/// the caller against the input's owner: the cheap preliminary check runs
/// before the body is parsed, the final check after the owner is read off
/// the input.
pub struct OwnedFunction<O, C, V> {
    pub owner_of: O,
    pub access: OwnedAccess,
    pub validation: Validation<V>,
    pub codec: C,
}

impl<O, C, V> OwnedFunction<O, C, V> {
    /// Registers the route pieces.
    pub fn new(owner_of: O, access: OwnedAccess, validation: Validation<V>, codec: C) -> (s: Self)
        ensures
            s.owner_of == owner_of,
            s.access == access,
            s.validation == validation,
            s.codec == codec,
    {
        OwnedFunction { owner_of, access, validation, codec }
    }

    /// Two-phase authorization around input parsing: a caller the
    /// preliminary check rejects is denied before the body is touched, and
    /// an admitted input's owner passed the final owned check.
    pub fn resolve<I>(&self, request: &Request, metadata: &RequestMetadata) -> (r: Result<
        I,
        ServerError,
    >) where O: InputOwner<I>, C: InputCodec<I>
        ensures
            !spec_preliminary(*metadata, self.access) ==> (r matches Err(e)
                && e.behavior is ReturnUnauthorized),
            r is Ok ==> spec_preliminary(*metadata, self.access) && exists|ow: Seq<char>|
                spec_allowed_owned(*metadata, self.access, Some(ow)),
    {
        if !preliminary_access_check(metadata, &self.access) {
            return Err(ServerError::unauthorized());
        }
        let input = match self.codec.parse_input(request.body_str()) {
            Ok(i) => i,
            Err(e) => return Err(e),
        };
        let owner = self.owner_of.owner_of(&input);
        let allowed = is_allowed_owned_access(metadata, &self.access, Some(&owner));
        proof {
            if allowed {
                assert(spec_allowed_owned(*metadata, self.access, view_owner(Some(&owner))));
            }
        }
        if !allowed {
            return Err(ServerError::unauthorized());
        }
        Ok(input)
    }
}

} // verus!
