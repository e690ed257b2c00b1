//! CRUD operation resolver: derives exactly one of the ten operation shapes
//! from method, flags and body, authorizes it (two-phase for the owned
//! variant, all-or-nothing for batches), and runs the validation chain.

use vstd::prelude::*;

use crate::access::Access;
use crate::access::CrudAccess;
use crate::access::OwnedAccess;
use crate::access::OwnedCrudAccess;
use crate::access::RequestMetadata;
use crate::access::batch_allowed;
use crate::access::is_allowed_access;
use crate::access::is_allowed_owned_access;
use crate::access::preliminary_access_check;
use crate::access::spec_allowed;
use crate::access::spec_allowed_owned;
use crate::access::spec_batch_allowed;
use crate::access::spec_owner_views;
use crate::access::spec_preliminary;
use crate::access::view_owner;
use crate::errors::ServerError;
use crate::request::HttpMethod;
use crate::request::Request;
use crate::resource_id::ResourceId;
use crate::resource_id::RidView;
use crate::resource_id::parse_ids;
use crate::resource_id::spec_id_parse_ok;
use crate::resource_id::spec_id_views;
use crate::resource_id::spec_ids_ok;
use crate::resource_id::spec_ids_views;
use crate::resource_id::spec_parsed_id;
use crate::validation::Validation;
use crate::validation::ValidatorSpec;

verus! {

/// The ten operation shapes. `T` is the full record type (with its own id),
/// `D` the creation payload type; both are opaque to the resolver.
#[derive(Debug)]
pub enum CrudOperation<T, D> {
    List { parent_id: Option<ResourceId> },
    Create { parent_id: Option<ResourceId>, after: Option<ResourceId>, data: D },
    CreateMultiple { parent_id: Option<ResourceId>, after: Option<ResourceId>, data: Vec<D> },
    Read { id: ResourceId },
    ReadMultiple { ids: Vec<ResourceId> },
    Update { item: T },
    Delete { id: ResourceId, non_recursive: bool },
    DeleteMultiple { ids: Vec<ResourceId>, non_recursive: bool },
    DeleteAll { parent_id: Option<ResourceId>, non_recursive: bool },
    ReplaceAll { parent_id: Option<ResourceId>, data: Vec<D> },
}

/// Typed body parsing, supplied by the route's registrant (ordinarily a
/// JSON deserializer for the route's record type). The resolver treats the
/// parsed values as opaque; only `item_id` is read, to resolve the owner of
/// an update target.
pub trait CrudCodec<T, D> {
    /// Parses the body as one creation payload.
    fn parse_data(&self, body: &str) -> Result<D, ServerError>;

    /// Parses the body as a list of creation payloads.
    fn parse_data_list(&self, body: &str) -> Result<Vec<D>, ServerError>;

    /// Parses the body as one full record, its own id included.
    fn parse_item(&self, body: &str) -> Result<T, ServerError>;

    /// The id a full record carries; a record whose id is malformed or
    /// absent is the codec's error, so ownership is never resolved against
    /// a substitute id.
    fn item_id(&self, item: &T) -> Result<ResourceId, ServerError>;
}

/// Owner resolution, supplied per owned route at registration time.
pub trait OwnerLookup {
    /// The owner subject of the resource itself, if resolvable.
    fn owner_of_id(&self, id: &ResourceId) -> Option<String>;

    /// The owner subject of a parent (the root sentinel stands for the
    /// top-level collection), if resolvable.
    fn owner_of_parent_id(&self, id: &ResourceId) -> Option<String>;
}

/// The policy field that governs an operation shape.
pub open spec fn spec_policy_for<T, D>(access: CrudAccess, op: CrudOperation<T, D>) -> Access {
    match op {
        CrudOperation::List { .. } => access.list,
        CrudOperation::Create { .. } => access.create,
        CrudOperation::CreateMultiple { .. } => access.batch_create,
        CrudOperation::Read { .. } => access.read,
        CrudOperation::ReadMultiple { .. } => access.batch_read,
        CrudOperation::Update { .. } => access.update,
        CrudOperation::Delete { .. } => access.delete,
        CrudOperation::DeleteMultiple { .. } => access.batch_delete,
        CrudOperation::DeleteAll { .. } => access.delete_all,
        CrudOperation::ReplaceAll { .. } => access.replace_all,
    }
}

/// The owned policy field that governs an operation shape.
pub open spec fn spec_policy_for_owned<T, D>(
    access: OwnedCrudAccess,
    op: CrudOperation<T, D>,
) -> OwnedAccess {
    match op {
        CrudOperation::List { .. } => access.list,
        CrudOperation::Create { .. } => access.create,
        CrudOperation::CreateMultiple { .. } => access.batch_create,
        CrudOperation::Read { .. } => access.read,
        CrudOperation::ReadMultiple { .. } => access.batch_read,
        CrudOperation::Update { .. } => access.update,
        CrudOperation::Delete { .. } => access.delete,
        CrudOperation::DeleteMultiple { .. } => access.batch_delete,
        CrudOperation::DeleteAll { .. } => access.delete_all,
        CrudOperation::ReplaceAll { .. } => access.replace_all,
    }
}

/// The operation shape a request resolves to, by the fixed precedence:
/// POST prefers `replace_all` over body-shape sniffing; GET and DELETE
/// prefer `all` over `ids` over a single `id`.
pub open spec fn spec_op_shape<T, D>(req: Request, op: CrudOperation<T, D>) -> bool {
    match req.method {
        HttpMethod::Post => if req.query.replace_all {
            op is ReplaceAll
        } else {
            op is CreateMultiple || op is Create
        },
        HttpMethod::Get => if req.query.all {
            op is List
        } else if req.query.ids is Some {
            op is ReadMultiple
        } else {
            op is Read
        },
        HttpMethod::Put => op is Update,
        HttpMethod::Delete => if req.query.all {
            op is DeleteAll
        } else if req.query.ids is Some {
            op is DeleteMultiple
        } else {
            op is Delete
        },
        HttpMethod::Other => false,
    }
}

/// An optional id query parameter parses (or is absent).
pub open spec fn spec_opt_id_ok(p: Option<String>) -> bool {
    match p {
        None => true,
        Some(s) => spec_id_parse_ok(s@),
    }
}

/// What an optional id query parameter denotes.
pub open spec fn spec_opt_id_view(p: Option<String>) -> Option<RidView> {
    match p {
        None => None,
        Some(s) => Some(spec_parsed_id(s@)),
    }
}

/// View of an optional resolved id.
pub open spec fn spec_opt_rid_view(p: Option<ResourceId>) -> Option<RidView> {
    match p {
        None => None,
        Some(id) => Some(id@),
    }
}

/// The resolved operation's fields are exactly what the request's query
/// parameters denote.
pub open spec fn spec_op_fields<T, D>(req: Request, op: CrudOperation<T, D>) -> bool {
    match op {
        CrudOperation::List { parent_id } => spec_opt_rid_view(parent_id) == spec_opt_id_view(
            req.query.parent_id,
        ),
        CrudOperation::Create { parent_id, after, .. } => spec_opt_rid_view(parent_id)
            == spec_opt_id_view(req.query.parent_id) && spec_opt_rid_view(after)
            == spec_opt_id_view(req.query.after),
        CrudOperation::CreateMultiple { parent_id, after, .. } => spec_opt_rid_view(parent_id)
            == spec_opt_id_view(req.query.parent_id) && spec_opt_rid_view(after)
            == spec_opt_id_view(req.query.after),
        CrudOperation::Read { id } => (req.query.id matches Some(s) && spec_id_parse_ok(s@)
            && id@ == spec_parsed_id(s@)),
        CrudOperation::ReadMultiple { ids } => (req.query.ids matches Some(raw) && spec_ids_ok(raw@)
            && spec_id_views(ids@) == spec_ids_views(raw@)),
        CrudOperation::Update { .. } => true,
        CrudOperation::Delete { id, non_recursive } => (req.query.id matches Some(s)
            && spec_id_parse_ok(s@) && id@ == spec_parsed_id(s@)) && non_recursive
            == req.query.non_recursive,
        CrudOperation::DeleteMultiple { ids, non_recursive } => (req.query.ids matches Some(raw)
            && spec_ids_ok(raw@) && spec_id_views(ids@) == spec_ids_views(raw@)) && non_recursive
            == req.query.non_recursive,
        CrudOperation::DeleteAll { parent_id, non_recursive } => spec_opt_rid_view(parent_id)
            == spec_opt_id_view(req.query.parent_id) && non_recursive == req.query.non_recursive,
        CrudOperation::ReplaceAll { parent_id, .. } => spec_opt_rid_view(parent_id)
            == spec_opt_id_view(req.query.parent_id),
    }
}

/// The policy field a request selects, where method and flags alone decide
/// it. `None` for an unsupported method and for a POST without
/// `replace_all`, where the body shape picks between create and batch
/// create.
pub open spec fn spec_request_policy(access: CrudAccess, req: Request) -> Option<Access> {
    match req.method {
        HttpMethod::Post => if req.query.replace_all {
            Some(access.replace_all)
        } else {
            None
        },
        HttpMethod::Get => if req.query.all {
            Some(access.list)
        } else if req.query.ids is Some {
            Some(access.batch_read)
        } else {
            Some(access.read)
        },
        HttpMethod::Put => Some(access.update),
        HttpMethod::Delete => if req.query.all {
            Some(access.delete_all)
        } else if req.query.ids is Some {
            Some(access.batch_delete)
        } else {
            Some(access.delete)
        },
        HttpMethod::Other => None,
    }
}

/// As `spec_request_policy`, for the owned policy set.
pub open spec fn spec_request_policy_owned(
    access: OwnedCrudAccess,
    req: Request,
) -> Option<OwnedAccess> {
    match req.method {
        HttpMethod::Post => if req.query.replace_all {
            Some(access.replace_all)
        } else {
            None
        },
        HttpMethod::Get => if req.query.all {
            Some(access.list)
        } else if req.query.ids is Some {
            Some(access.batch_read)
        } else {
            Some(access.read)
        },
        HttpMethod::Put => Some(access.update),
        HttpMethod::Delete => if req.query.all {
            Some(access.delete_all)
        } else if req.query.ids is Some {
            Some(access.batch_delete)
        } else {
            Some(access.delete)
        },
        HttpMethod::Other => None,
    }
}

/// The request refused a non-recursive delete: the flag is set but the
/// policy does not allow it. Checked before any parsing or owner lookup.
pub open spec fn spec_non_recursive_refused(allow: bool, req: Request) -> bool {
    req.method is Delete && req.query.non_recursive && !allow
}

/// A required `id` parameter, parsed; missing or malformed is a client
/// error.
pub fn get_required_id(param: &Option<String>) -> (r: Result<ResourceId, ServerError>)
    ensures
        param is None ==> (r matches Err(e) && e.behavior is ForwardToClient),
        param matches Some(s) ==> spec_id_parse_ok(s@) ==> (r matches Ok(id) && id@
            == spec_parsed_id(s@)),
        param matches Some(s) ==> !spec_id_parse_ok(s@) ==> (r matches Err(e)
            && e.behavior is ForwardToClient),
{
    match param {
        None => Err(ServerError::invalid_request("query parameter 'id' is required")),
        Some(s) => match ResourceId::from_string(s.as_str()) {
            Some(id) => Ok(id),
            None => Err(ServerError::invalid_request_with_detail("invalid id", s.as_str())),
        },
    }
}

/// An optional id parameter (`parent_id`, `after`), parsed; absence is not
/// an error, a malformed value is a client error.
pub fn get_optional_pksk(param: &Option<String>, err_msg: &str) -> (r: Result<
    Option<ResourceId>,
    ServerError,
>)
    ensures
        param is None ==> (r matches Ok(v) && v is None),
        param matches Some(s) ==> spec_id_parse_ok(s@) ==> (r matches Ok(v) && v matches Some(id)
            && id@ == spec_parsed_id(s@)),
        param matches Some(s) ==> !spec_id_parse_ok(s@) ==> (r matches Err(e)
            && e.behavior is ForwardToClient),
{
    match param {
        None => Ok(None),
        Some(s) => match ResourceId::from_string(s.as_str()) {
            Some(id) => Ok(Some(id)),
            None => Err(ServerError::invalid_request_with_detail(err_msg, s.as_str())),
        },
    }
}

/// The `ids` parameter if present, parsed as a comma-separated id list.
pub fn maybe_ids(ids_param: &Option<String>) -> (r: Option<Result<Vec<ResourceId>, ServerError>>)
    ensures
        (ids_param is None) <==> (r is None),
        ids_param matches Some(raw) ==> spec_ids_ok(raw@) ==> (r matches Some(res)
            && res matches Ok(v) && spec_id_views(v@) == spec_ids_views(raw@)),
        ids_param matches Some(raw) ==> !spec_ids_ok(raw@) ==> (r matches Some(res)
            && res matches Err(e) && e.behavior is ForwardToClient),
{
    match ids_param {
        None => None,
        Some(raw) => Some(parse_ids(raw.as_str())),
    }
}

/// A non-owned CRUD route: per-operation access policy, validation chain,
/// and the body codec. Authorization here depends on the identity alone.
pub struct Crud<C, V> {
    pub access: CrudAccess,
    pub validation: Validation<V>,
    pub codec: C,
}

impl<C, V> Crud<C, V> {
    /// Registers the route pieces.
    pub fn new(access: CrudAccess, validation: Validation<V>, codec: C) -> (s: Self)
        ensures
            s.access == access,
            s.validation == validation,
            s.codec == codec,
    {
        Crud { access, validation, codec }
    }

    /// Resolves a request to its one authorized, validated operation.
    ///
    /// Every `Ok` carries the shape the method and flags dictate, fields
    /// exactly as the query parameters denote them, and was allowed by the
    /// policy field governing that shape; a set `non_recursive` flag that
    /// the policy refuses, or an unsupported method, or a denied caller is
    /// always an error. A GET or DELETE whose parameters parse, whose
    /// policy admits the caller and whose chain is `Pass` always succeeds.
    pub fn resolve<T, D>(&self, request: &Request, metadata: &RequestMetadata) -> (r: Result<
        CrudOperation<T, D>,
        ServerError,
    >) where C: CrudCodec<T, D>, V: ValidatorSpec<CrudOperation<T, D>>
        ensures
            r matches Ok(op) ==> {
                &&& spec_op_shape(*request, op)
                &&& spec_op_fields(*request, op)
                &&& spec_allowed(*metadata, spec_policy_for(self.access, op))
                &&& !spec_non_recursive_refused(self.access.allow_non_recursive_delete, *request)
            },
            request.method is Other ==> (r matches Err(e)
                && e.behavior is ReturnInternalServerError),
            spec_non_recursive_refused(self.access.allow_non_recursive_delete, *request) ==> (
            r matches Err(e) && e.behavior is ReturnUnauthorized),
            match spec_request_policy(self.access, *request) {
                Some(p) => (!spec_non_recursive_refused(
                    self.access.allow_non_recursive_delete,
                    *request,
                ) && !spec_allowed(*metadata, p)) ==> (r matches Err(e)
                    && e.behavior is ReturnUnauthorized),
                None => true,
            },
            (request.method is Post && !request.query.replace_all && !spec_allowed(
                *metadata,
                self.access.batch_create,
            ) && !spec_allowed(*metadata, self.access.create)) ==> r is Err,
            ({
                &&& request.method is Get
                &&& self.validation is Pass
                &&& match spec_request_policy(self.access, *request) {
                    Some(p) => spec_allowed(*metadata, p),
                    None => false,
                }
                &&& request.query.all ==> spec_opt_id_ok(request.query.parent_id)
                &&& match request.query.ids {
                    Some(raw) => !request.query.all ==> spec_ids_ok(raw@),
                    None => true,
                }
                &&& (!request.query.all && request.query.ids is None) ==> (
                request.query.id matches Some(s) && spec_id_parse_ok(s@))
            }) ==> r is Ok,
            ({
                &&& request.method is Delete
                &&& !spec_non_recursive_refused(self.access.allow_non_recursive_delete, *request)
                &&& self.validation is Pass
                &&& match spec_request_policy(self.access, *request) {
                    Some(p) => spec_allowed(*metadata, p),
                    None => false,
                }
                &&& request.query.all ==> spec_opt_id_ok(request.query.parent_id)
                &&& match request.query.ids {
                    Some(raw) => !request.query.all ==> spec_ids_ok(raw@),
                    None => true,
                }
                &&& (!request.query.all && request.query.ids is None) ==> (
                request.query.id matches Some(s) && spec_id_parse_ok(s@))
            }) ==> r is Ok,
    {
        let op: CrudOperation<T, D> = match request.method {
            HttpMethod::Post => {
                if request.query.replace_all {
                    if !is_allowed_access(metadata, &self.access.replace_all) {
                        return Err(ServerError::unauthorized());
                    }
                    let parent_id = match get_optional_pksk(
                        &request.query.parent_id,
                        "invalid parent_id",
                    ) {
                        Ok(v) => v,
                        Err(e) => return Err(e),
                    };
                    let data = match self.codec.parse_data_list(request.body_str()) {
                        Ok(d) => d,
                        Err(e) => return Err(e),
                    };
                    CrudOperation::ReplaceAll { parent_id, data }
                } else {
                    let parent_id = match get_optional_pksk(
                        &request.query.parent_id,
                        "invalid parent_id",
                    ) {
                        Ok(v) => v,
                        Err(e) => return Err(e),
                    };
                    let after = match get_optional_pksk(&request.query.after, "invalid after") {
                        Ok(v) => v,
                        Err(e) => return Err(e),
                    };
                    // Batch create if the body is a list; fall back to single.
                    match self.codec.parse_data_list(request.body_str()) {
                        Ok(list) => {
                            if !is_allowed_access(metadata, &self.access.batch_create) {
                                return Err(ServerError::unauthorized());
                            }
                            CrudOperation::CreateMultiple { parent_id, after, data: list }
                        }
                        Err(_) => {
                            if !is_allowed_access(metadata, &self.access.create) {
                                return Err(ServerError::unauthorized());
                            }
                            let data = match self.codec.parse_data(request.body_str()) {
                                Ok(d) => d,
                                Err(e) => return Err(e),
                            };
                            CrudOperation::Create { parent_id, after, data }
                        }
                    }
                }
            }
            HttpMethod::Get => {
                if request.query.all {
                    if !is_allowed_access(metadata, &self.access.list) {
                        return Err(ServerError::unauthorized());
                    }
                    let parent_id = match get_optional_pksk(
                        &request.query.parent_id,
                        "invalid parent_id",
                    ) {
                        Ok(v) => v,
                        Err(e) => return Err(e),
                    };
                    CrudOperation::List { parent_id }
                } else if let Some(res) = maybe_ids(&request.query.ids) {
                    if !is_allowed_access(metadata, &self.access.batch_read) {
                        return Err(ServerError::unauthorized());
                    }
                    let ids = match res {
                        Ok(v) => v,
                        Err(e) => return Err(e),
                    };
                    CrudOperation::ReadMultiple { ids }
                } else {
                    if !is_allowed_access(metadata, &self.access.read) {
                        return Err(ServerError::unauthorized());
                    }
                    let id = match get_required_id(&request.query.id) {
                        Ok(id) => id,
                        Err(e) => return Err(e),
                    };
                    CrudOperation::Read { id }
                }
            }
            HttpMethod::Put => {
                if !is_allowed_access(metadata, &self.access.update) {
                    return Err(ServerError::unauthorized());
                }
                let item = match self.codec.parse_item(request.body_str()) {
                    Ok(i) => i,
                    Err(e) => return Err(e),
                };
                CrudOperation::Update { item }
            }
            HttpMethod::Delete => {
                let non_recursive = request.query.non_recursive;
                if non_recursive && !self.access.allow_non_recursive_delete {
                    return Err(ServerError::unauthorized());
                }
                if request.query.all {
                    if !is_allowed_access(metadata, &self.access.delete_all) {
                        return Err(ServerError::unauthorized());
                    }
                    let parent_id = match get_optional_pksk(
                        &request.query.parent_id,
                        "invalid parent_id",
                    ) {
                        Ok(v) => v,
                        Err(e) => return Err(e),
                    };
                    CrudOperation::DeleteAll { parent_id, non_recursive }
                } else if let Some(res) = maybe_ids(&request.query.ids) {
                    if !is_allowed_access(metadata, &self.access.batch_delete) {
                        return Err(ServerError::unauthorized());
                    }
                    let ids = match res {
                        Ok(v) => v,
                        Err(e) => return Err(e),
                    };
                    CrudOperation::DeleteMultiple { ids, non_recursive }
                } else {
                    if !is_allowed_access(metadata, &self.access.delete) {
                        return Err(ServerError::unauthorized());
                    }
                    let id = match get_required_id(&request.query.id) {
                        Ok(id) => id,
                        Err(e) => return Err(e),
                    };
                    CrudOperation::Delete { id, non_recursive }
                }
            }
            HttpMethod::Other => {
                return Err(ServerError::critical("unsupported HTTP method for CRUD route"));
            }
        };
        if let Err(e) = self.validation.validate(request, &op, metadata) {
            return Err(e);
        }
        Ok(op)
    }
}

/// What an `Ok` of the owned resolver witnesses about the final owned
/// check: for a batch, every targeted id's resolved owner passed
/// individually; for the other shapes, the one resolved owner passed.
pub open spec fn spec_owner_evidence<T, D>(
    m: RequestMetadata,
    access: OwnedCrudAccess,
    op: CrudOperation<T, D>,
) -> bool {
    match op {
        CrudOperation::ReadMultiple { ids } => exists|ows: Seq<Option<Seq<char>>>|
            ows.len() == ids@.len() && spec_batch_allowed(m, access.batch_read, ows),
        CrudOperation::DeleteMultiple { ids, .. } => exists|ows: Seq<Option<Seq<char>>>|
            ows.len() == ids@.len() && spec_batch_allowed(m, access.batch_delete, ows),
        _ => exists|ow: Option<Seq<char>>|
            spec_allowed_owned(m, spec_policy_for_owned(access, op), ow),
    }
}

/// Final owned check against the owner of the parent collection, using the
/// root sentinel when no parent is named.
fn parent_owner_allowed<L: OwnerLookup>(
    lookup: &L,
    metadata: &RequestMetadata,
    access: &OwnedAccess,
    parent_id: &Option<ResourceId>,
) -> (r: bool)
    ensures
        r ==> exists|ow: Option<Seq<char>>| spec_allowed_owned(*metadata, *access, ow),
        (forall|ow: Option<Seq<char>>| spec_allowed_owned(*metadata, *access, ow)) ==> r,
{
    let owner = match parent_id {
        Some(pid) => lookup.owner_of_parent_id(pid),
        None => lookup.owner_of_parent_id(&ResourceId::root()),
    };
    let owner_ref = match &owner {
        Some(s) => Some(s),
        None => None,
    };
    let allowed = is_allowed_owned_access(metadata, access, owner_ref);
    proof {
        if allowed {
            assert(spec_allowed_owned(*metadata, *access, view_owner(owner_ref)));
        }
    }
    allowed
}

/// Final owned check against the owner of one target id.
fn id_owner_allowed<L: OwnerLookup>(
    lookup: &L,
    metadata: &RequestMetadata,
    access: &OwnedAccess,
    id: &ResourceId,
) -> (r: bool)
    ensures
        r ==> exists|ow: Option<Seq<char>>| spec_allowed_owned(*metadata, *access, ow),
        (forall|ow: Option<Seq<char>>| spec_allowed_owned(*metadata, *access, ow)) ==> r,
{
    let owner = lookup.owner_of_id(id);
    let owner_ref = match &owner {
        Some(s) => Some(s),
        None => None,
    };
    let allowed = is_allowed_owned_access(metadata, access, owner_ref);
    proof {
        if allowed {
            assert(spec_allowed_owned(*metadata, *access, view_owner(owner_ref)));
        }
    }
    allowed
}

/// Final owned check for a batch: resolves every id's owner (all lookups
/// complete), then requires each to pass; one failure denies the batch.
fn batch_ids_allowed<L: OwnerLookup>(
    lookup: &L,
    metadata: &RequestMetadata,
    access: &OwnedAccess,
    ids: &Vec<ResourceId>,
) -> (r: bool)
    ensures
        r ==> exists|ows: Seq<Option<Seq<char>>>|
            ows.len() == ids@.len() && spec_batch_allowed(*metadata, *access, ows),
        (forall|ow: Option<Seq<char>>| spec_allowed_owned(*metadata, *access, ow)) ==> r,
{
    let mut owners: Vec<Option<String>> = Vec::new();
    let mut i: usize = 0;
    while i < ids.len()
        invariant
            0 <= i <= ids.len(),
            owners@.len() == i,
        decreases ids.len() - i,
    {
        owners.push(lookup.owner_of_id(&ids[i]));
        i = i + 1;
    }
    let allowed = batch_allowed(metadata, access, &owners);
    proof {
        let views = spec_owner_views(owners@);
        assert(views.len() == ids@.len());
        if allowed {
            assert(spec_batch_allowed(*metadata, *access, views));
        }
    }
    allowed
}

/// An owned CRUD route: as `Crud`, plus the owner lookup supplied at
/// registration. Authorization is two-phase: the cheap owner-independent
/// preliminary check rejects before any parsing or owner lookup is paid
/// for; the final check compares against the resolved owner, and a batch
/// passes only if every id passes.
pub struct OwnedCrud<L, C, V> {
    pub owner_lookup: L,
    pub access: OwnedCrudAccess,
    pub validation: Validation<V>,
    pub codec: C,
}

impl<L, C, V> OwnedCrud<L, C, V> {
    /// Registers the route pieces.
    pub fn new(owner_lookup: L, access: OwnedCrudAccess, validation: Validation<V>, codec: C) -> (s:
        Self)
        ensures
            s.owner_lookup == owner_lookup,
            s.access == access,
            s.validation == validation,
            s.codec == codec,
    {
        OwnedCrud { owner_lookup, access, validation, codec }
    }

    /// Resolves a request to its one authorized, validated operation.
    ///
    /// As the non-owned resolver, except that every `Ok` additionally
    /// witnesses the final owned check: the resolved owner (or, for a
    /// batch, every targeted id's resolved owner) passed the governing
    /// policy. The preliminary check runs first and a caller it rejects is
    /// always denied before parsing or owner resolution.
    pub fn resolve<T, D>(&self, request: &Request, metadata: &RequestMetadata) -> (r: Result<
        CrudOperation<T, D>,
        ServerError,
    >) where L: OwnerLookup, C: CrudCodec<T, D>, V: ValidatorSpec<CrudOperation<T, D>>
        ensures
            r matches Ok(op) ==> {
                &&& spec_op_shape(*request, op)
                &&& spec_op_fields(*request, op)
                &&& spec_preliminary(*metadata, spec_policy_for_owned(self.access, op))
                &&& spec_owner_evidence(*metadata, self.access, op)
                &&& !spec_non_recursive_refused(self.access.allow_non_recursive_delete, *request)
            },
            request.method is Other ==> (r matches Err(e)
                && e.behavior is ReturnInternalServerError),
            spec_non_recursive_refused(self.access.allow_non_recursive_delete, *request) ==> (
            r matches Err(e) && e.behavior is ReturnUnauthorized),
            match spec_request_policy_owned(self.access, *request) {
                Some(p) => (!spec_non_recursive_refused(
                    self.access.allow_non_recursive_delete,
                    *request,
                ) && !spec_preliminary(*metadata, p)) ==> (r matches Err(e)
                    && e.behavior is ReturnUnauthorized),
                None => true,
            },
            (request.method is Post && !request.query.replace_all && !spec_preliminary(
                *metadata,
                self.access.batch_create,
            ) && !spec_preliminary(*metadata, self.access.create)) ==> r is Err,
            ({
                &&& request.method is Get
                &&& self.validation is Pass
                &&& match spec_request_policy_owned(self.access, *request) {
                    Some(p) => p is Guest,
                    None => false,
                }
                &&& request.query.all ==> spec_opt_id_ok(request.query.parent_id)
                &&& match request.query.ids {
                    Some(raw) => !request.query.all ==> spec_ids_ok(raw@),
                    None => true,
                }
                &&& (!request.query.all && request.query.ids is None) ==> (
                request.query.id matches Some(s) && spec_id_parse_ok(s@))
            }) ==> r is Ok,
            ({
                &&& request.method is Delete
                &&& !spec_non_recursive_refused(self.access.allow_non_recursive_delete, *request)
                &&& self.validation is Pass
                &&& match spec_request_policy_owned(self.access, *request) {
                    Some(p) => p is Guest,
                    None => false,
                }
                &&& request.query.all ==> spec_opt_id_ok(request.query.parent_id)
                &&& match request.query.ids {
                    Some(raw) => !request.query.all ==> spec_ids_ok(raw@),
                    None => true,
                }
                &&& (!request.query.all && request.query.ids is None) ==> (
                request.query.id matches Some(s) && spec_id_parse_ok(s@))
            }) ==> r is Ok,
    {
        let op: CrudOperation<T, D> = match request.method {
            HttpMethod::Post => {
                if request.query.replace_all {
                    if !preliminary_access_check(metadata, &self.access.replace_all) {
                        return Err(ServerError::unauthorized());
                    }
                    let parent_id = match get_optional_pksk(
                        &request.query.parent_id,
                        "invalid parent_id",
                    ) {
                        Ok(v) => v,
                        Err(e) => return Err(e),
                    };
                    if !parent_owner_allowed(
                        &self.owner_lookup,
                        metadata,
                        &self.access.replace_all,
                        &parent_id,
                    ) {
                        return Err(ServerError::unauthorized());
                    }
                    let data = match self.codec.parse_data_list(request.body_str()) {
                        Ok(d) => d,
                        Err(e) => return Err(e),
                    };
                    CrudOperation::ReplaceAll { parent_id, data }
                } else {
                    let parent_id = match get_optional_pksk(
                        &request.query.parent_id,
                        "invalid parent_id",
                    ) {
                        Ok(v) => v,
                        Err(e) => return Err(e),
                    };
                    let after = match get_optional_pksk(&request.query.after, "invalid after") {
                        Ok(v) => v,
                        Err(e) => return Err(e),
                    };
                    // Batch create if the body is a list; fall back to single.
                    match self.codec.parse_data_list(request.body_str()) {
                        Ok(list) => {
                            if !preliminary_access_check(metadata, &self.access.batch_create) {
                                return Err(ServerError::unauthorized());
                            }
                            if !parent_owner_allowed(
                                &self.owner_lookup,
                                metadata,
                                &self.access.batch_create,
                                &parent_id,
                            ) {
                                return Err(ServerError::unauthorized());
                            }
                            CrudOperation::CreateMultiple { parent_id, after, data: list }
                        }
                        Err(_) => {
                            if !preliminary_access_check(metadata, &self.access.create) {
                                return Err(ServerError::unauthorized());
                            }
                            if !parent_owner_allowed(
                                &self.owner_lookup,
                                metadata,
                                &self.access.create,
                                &parent_id,
                            ) {
                                return Err(ServerError::unauthorized());
                            }
                            let data = match self.codec.parse_data(request.body_str()) {
                                Ok(d) => d,
                                Err(e) => return Err(e),
                            };
                            CrudOperation::Create { parent_id, after, data }
                        }
                    }
                }
            }
            HttpMethod::Get => {
                if request.query.all {
                    if !preliminary_access_check(metadata, &self.access.list) {
                        return Err(ServerError::unauthorized());
                    }
                    let parent_id = match get_optional_pksk(
                        &request.query.parent_id,
                        "invalid parent_id",
                    ) {
                        Ok(v) => v,
                        Err(e) => return Err(e),
                    };
                    if !parent_owner_allowed(
                        &self.owner_lookup,
                        metadata,
                        &self.access.list,
                        &parent_id,
                    ) {
                        return Err(ServerError::unauthorized());
                    }
                    CrudOperation::List { parent_id }
                } else if let Some(res) = maybe_ids(&request.query.ids) {
                    if !preliminary_access_check(metadata, &self.access.batch_read) {
                        return Err(ServerError::unauthorized());
                    }
                    let ids = match res {
                        Ok(v) => v,
                        Err(e) => return Err(e),
                    };
                    if !batch_ids_allowed(
                        &self.owner_lookup,
                        metadata,
                        &self.access.batch_read,
                        &ids,
                    ) {
                        return Err(ServerError::unauthorized());
                    }
                    CrudOperation::ReadMultiple { ids }
                } else {
                    if !preliminary_access_check(metadata, &self.access.read) {
                        return Err(ServerError::unauthorized());
                    }
                    let id = match get_required_id(&request.query.id) {
                        Ok(id) => id,
                        Err(e) => return Err(e),
                    };
                    if !id_owner_allowed(&self.owner_lookup, metadata, &self.access.read, &id) {
                        return Err(ServerError::unauthorized());
                    }
                    CrudOperation::Read { id }
                }
            }
            HttpMethod::Put => {
                if !preliminary_access_check(metadata, &self.access.update) {
                    return Err(ServerError::unauthorized());
                }
                let item = match self.codec.parse_item(request.body_str()) {
                    Ok(i) => i,
                    Err(e) => return Err(e),
                };
                let item_id = match self.codec.item_id(&item) {
                    Ok(id) => id,
                    Err(e) => return Err(e),
                };
                if !id_owner_allowed(&self.owner_lookup, metadata, &self.access.update, &item_id) {
                    return Err(ServerError::unauthorized());
                }
                CrudOperation::Update { item }
            }
            HttpMethod::Delete => {
                let non_recursive = request.query.non_recursive;
                if non_recursive && !self.access.allow_non_recursive_delete {
                    return Err(ServerError::unauthorized());
                }
                if request.query.all {
                    if !preliminary_access_check(metadata, &self.access.delete_all) {
                        return Err(ServerError::unauthorized());
                    }
                    let parent_id = match get_optional_pksk(
                        &request.query.parent_id,
                        "invalid parent_id",
                    ) {
                        Ok(v) => v,
                        Err(e) => return Err(e),
                    };
                    if !parent_owner_allowed(
                        &self.owner_lookup,
                        metadata,
                        &self.access.delete_all,
                        &parent_id,
                    ) {
                        return Err(ServerError::unauthorized());
                    }
                    CrudOperation::DeleteAll { parent_id, non_recursive }
                } else if let Some(res) = maybe_ids(&request.query.ids) {
                    if !preliminary_access_check(metadata, &self.access.batch_delete) {
                        return Err(ServerError::unauthorized());
                    }
                    let ids = match res {
                        Ok(v) => v,
                        Err(e) => return Err(e),
                    };
                    if !batch_ids_allowed(
                        &self.owner_lookup,
                        metadata,
                        &self.access.batch_delete,
                        &ids,
                    ) {
                        return Err(ServerError::unauthorized());
                    }
                    CrudOperation::DeleteMultiple { ids, non_recursive }
                } else {
                    if !preliminary_access_check(metadata, &self.access.delete) {
                        return Err(ServerError::unauthorized());
                    }
                    let id = match get_required_id(&request.query.id) {
                        Ok(id) => id,
                        Err(e) => return Err(e),
                    };
                    if !id_owner_allowed(&self.owner_lookup, metadata, &self.access.delete, &id) {
                        return Err(ServerError::unauthorized());
                    }
                    CrudOperation::Delete { id, non_recursive }
                }
            }
            HttpMethod::Other => {
                return Err(ServerError::critical("unsupported HTTP method for CRUD route"));
            }
        };
        if let Err(e) = self.validation.validate(request, &op, metadata) {
            return Err(e);
        }
        Ok(op)
    }
}

} // verus!
