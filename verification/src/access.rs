//! Access model: the non-owned and owned access lattices, and the paired
//! preliminary / final authorization checks.

use vstd::prelude::*;

verus! {

/// Caller identity, produced once per request by the surrounding identity
/// resolution and consumed read-only by every downstream check.
pub struct RequestMetadata {
    pub is_authenticated: bool,
    pub is_admin: bool,
    pub user_sub: Option<String>,
}

/// Access control for non-owned routes.
#[derive(Debug)]
pub enum Access {
    /// Any user, including unauthenticated users.
    Guest,
    /// Any authenticated user.
    AnyUser,
    /// Only admin users.
    Admin,
    /// All access is denied.
    Denied,
}

/// Access control for owned routes.
#[derive(Debug)]
pub enum OwnedAccess {
    /// Any user, including unauthenticated users.
    Guest,
    /// Any authenticated user.
    AnyUser,
    /// Only the resource owner.
    Owner,
    /// Only admin users.
    Admin,
    /// Owner or admin users.
    OwnerOrAdmin,
    /// All access is denied.
    Denied,
}

/// What `is_allowed_access` decides, as a predicate over the identity.
pub open spec fn spec_allowed(m: RequestMetadata, access: Access) -> bool {
    match access {
        Access::Guest => true,
        Access::AnyUser => m.is_authenticated,
        Access::Admin => m.is_authenticated && m.is_admin,
        Access::Denied => false,
    }
}

/// What the final owned check decides, given the resolved owner subject
/// (`None` when ownership could not be resolved).
pub open spec fn spec_allowed_owned(
    m: RequestMetadata,
    access: OwnedAccess,
    owner: Option<Seq<char>>,
) -> bool {
    match access {
        OwnedAccess::Guest => true,
        OwnedAccess::AnyUser => m.is_authenticated,
        OwnedAccess::Admin => m.is_authenticated && m.is_admin,
        OwnedAccess::Owner => spec_is_owner(m, owner),
        OwnedAccess::OwnerOrAdmin => (m.is_authenticated && m.is_admin) || spec_is_owner(m, owner),
        OwnedAccess::Denied => false,
    }
}

/// The caller's subject is known and equals the resolved owner subject.
pub open spec fn spec_is_owner(m: RequestMetadata, owner: Option<Seq<char>>) -> bool {
    match (owner, m.user_sub) {
        (Some(owner_sub), Some(user_sub)) => owner_sub == user_sub@,
        _ => false,
    }
}

/// The owner-independent pre-filter: "could this possibly be allowed,
/// whatever the owner turns out to be".
pub open spec fn spec_preliminary(m: RequestMetadata, access: OwnedAccess) -> bool {
    match access {
        OwnedAccess::Guest => true,
        OwnedAccess::AnyUser => m.is_authenticated,
        OwnedAccess::Admin => m.is_authenticated && m.is_admin,
        OwnedAccess::Owner => m.is_authenticated,
        OwnedAccess::OwnerOrAdmin => if m.is_authenticated && m.is_admin {
            true
        } else {
            m.is_authenticated
        },
        OwnedAccess::Denied => false,
    }
}

/// View of an optionally borrowed subject string.
pub open spec fn view_owner(owner: Option<&String>) -> Option<Seq<char>> {
    match owner {
        Some(s) => Some(s@),
        None => None,
    }
}

/// Authorization for a non-owned route: the decision depends on the identity
/// alone.
pub fn is_allowed_access(metadata: &RequestMetadata, access: &Access) -> (r: bool)
    ensures
        r == spec_allowed(*metadata, *access),
{
    match access {
        Access::Guest => true,
        Access::AnyUser => metadata.is_authenticated,
        Access::Admin => metadata.is_authenticated && metadata.is_admin,
        Access::Denied => false,
    }
}

/// Final authorization for an owned route, once the owner subject is known
/// (`None` when ownership could not be resolved, which denies every level
/// except `Guest`).
pub fn is_allowed_owned_access(
    metadata: &RequestMetadata,
    access: &OwnedAccess,
    owner: Option<&String>,
) -> (r: bool)
    ensures
        r == spec_allowed_owned(*metadata, *access, view_owner(owner)),
{
    match access {
        OwnedAccess::Guest => true,
        OwnedAccess::AnyUser => metadata.is_authenticated,
        OwnedAccess::Admin => metadata.is_authenticated && metadata.is_admin,
        OwnedAccess::Owner => subject_matches(metadata, owner),
        OwnedAccess::OwnerOrAdmin => {
            if metadata.is_authenticated && metadata.is_admin {
                true
            } else {
                subject_matches(metadata, owner)
            }
        }
        OwnedAccess::Denied => false,
    }
}

/// Cheap owner-independent check made before any owner lookup is paid for.
/// Never stricter than `is_allowed_owned_access` for the same level.
pub fn preliminary_access_check(metadata: &RequestMetadata, access: &OwnedAccess) -> (r: bool)
    ensures
        r == spec_preliminary(*metadata, *access),
{
    match access {
        OwnedAccess::Guest => true,
        OwnedAccess::AnyUser => metadata.is_authenticated,
        OwnedAccess::Admin => metadata.is_authenticated && metadata.is_admin,
        OwnedAccess::Owner => metadata.is_authenticated,
        OwnedAccess::OwnerOrAdmin => {
            if metadata.is_authenticated && metadata.is_admin {
                true
            } else {
                metadata.is_authenticated
            }
        }
        OwnedAccess::Denied => false,
    }
}

fn subject_matches(metadata: &RequestMetadata, owner: Option<&String>) -> (r: bool)
    ensures
        r == spec_is_owner(*metadata, view_owner(owner)),
{
    match (owner, &metadata.user_sub) {
        (Some(owner_sub), Some(user_sub)) => *owner_sub == *user_sub,
        _ => false,
    }
}

/// One non-owned access level per logical sub-operation, plus whether a
/// non-recursive delete may be requested at all. Built once per route at
/// registration time.
pub struct CrudAccess {
    pub create: Access,
    pub read: Access,
    pub update: Access,
    pub delete: Access,
    pub list: Access,
    pub batch_create: Access,
    pub batch_read: Access,
    pub batch_delete: Access,
    pub delete_all: Access,
    pub replace_all: Access,
    pub allow_non_recursive_delete: bool,
}

impl Default for CrudAccess {
    /// Everything denied, non-recursive deletes refused.
    fn default() -> (a: CrudAccess)
        ensures
            a.create is Denied,
            a.read is Denied,
            a.update is Denied,
            a.delete is Denied,
            a.list is Denied,
            a.batch_create is Denied,
            a.batch_read is Denied,
            a.batch_delete is Denied,
            a.delete_all is Denied,
            a.replace_all is Denied,
            !a.allow_non_recursive_delete,
    {
        CrudAccess {
            create: Access::Denied,
            read: Access::Denied,
            update: Access::Denied,
            delete: Access::Denied,
            list: Access::Denied,
            batch_create: Access::Denied,
            batch_read: Access::Denied,
            batch_delete: Access::Denied,
            delete_all: Access::Denied,
            replace_all: Access::Denied,
            allow_non_recursive_delete: false,
        }
    }
}

/// The owned counterpart of `CrudAccess`.
pub struct OwnedCrudAccess {
    pub create: OwnedAccess,
    pub read: OwnedAccess,
    pub update: OwnedAccess,
    pub delete: OwnedAccess,
    pub list: OwnedAccess,
    pub batch_create: OwnedAccess,
    pub batch_read: OwnedAccess,
    pub batch_delete: OwnedAccess,
    pub delete_all: OwnedAccess,
    pub replace_all: OwnedAccess,
    pub allow_non_recursive_delete: bool,
}

impl Default for OwnedCrudAccess {
    /// Everything denied, non-recursive deletes refused.
    fn default() -> (a: OwnedCrudAccess)
        ensures
            a.create is Denied,
            a.read is Denied,
            a.update is Denied,
            a.delete is Denied,
            a.list is Denied,
            a.batch_create is Denied,
            a.batch_read is Denied,
            a.batch_delete is Denied,
            a.delete_all is Denied,
            a.replace_all is Denied,
            !a.allow_non_recursive_delete,
    {
        OwnedCrudAccess {
            create: OwnedAccess::Denied,
            read: OwnedAccess::Denied,
            update: OwnedAccess::Denied,
            delete: OwnedAccess::Denied,
            list: OwnedAccess::Denied,
            batch_create: OwnedAccess::Denied,
            batch_read: OwnedAccess::Denied,
            batch_delete: OwnedAccess::Denied,
            delete_all: OwnedAccess::Denied,
            replace_all: OwnedAccess::Denied,
            allow_non_recursive_delete: false,
        }
    }
}

/// Views of a list of resolved owner subjects.
pub open spec fn spec_owner_views(owners: Seq<Option<String>>) -> Seq<Option<Seq<char>>> {
    owners.map_values(
        |o: Option<String>|
            match o {
                Some(s) => Some(s@),
                None => None,
            },
    )
}

/// A batch is authorized exactly when every targeted id's resolved owner
/// passes the final owned check individually.
pub open spec fn spec_batch_allowed(
    m: RequestMetadata,
    access: OwnedAccess,
    owners: Seq<Option<Seq<char>>>,
) -> bool {
    forall|i: int| 0 <= i < owners.len() ==> spec_allowed_owned(m, access, #[trigger] owners[i])
}

/// Decides a batch: all targeted ids must pass; one failure denies the
/// whole request.
pub fn batch_allowed(
    metadata: &RequestMetadata,
    access: &OwnedAccess,
    owners: &Vec<Option<String>>,
) -> (r: bool)
    ensures
        r == spec_batch_allowed(*metadata, *access, spec_owner_views(owners@)),
{
    let ghost views = spec_owner_views(owners@);
    let mut i: usize = 0;
    while i < owners.len()
        invariant
            0 <= i <= owners.len(),
            views == spec_owner_views(owners@),
            views.len() == owners@.len(),
            forall|j: int| 0 <= j < i ==> spec_allowed_owned(*metadata, *access, #[trigger] views[j]),
        decreases owners.len() - i,
    {
        let owner = match &owners[i] {
            Some(s) => Some(s),
            None => None,
        };
        proof {
            assert(views[i as int] == view_owner(owner));
        }
        if !is_allowed_owned_access(metadata, access, owner) {
            return false;
        }
        i = i + 1;
    }
    true
}

/// No partial batch execution: a single failing id denies the whole batch,
/// whatever the other ids resolve to.
pub proof fn lemma_batch_denied_by_single_failure(
    m: RequestMetadata,
    access: OwnedAccess,
    owners: Seq<Option<Seq<char>>>,
    i: int,
)
    requires
        0 <= i < owners.len(),
        !spec_allowed_owned(m, access, owners[i]),
    ensures
        !spec_batch_allowed(m, access, owners),
{
}

/// The `Denied` levels deny every caller, whatever the identity or owner.
pub proof fn lemma_denied_always_denies(m: RequestMetadata, owner: Option<Seq<char>>)
    ensures
        !spec_allowed(m, Access::Denied),
        !spec_allowed_owned(m, OwnedAccess::Denied, owner),
        !spec_preliminary(m, OwnedAccess::Denied),
{
}

/// Soundness of the pre-filter: anything the final owned check allows, for
/// any owner, the preliminary check also allows. An `Owner`-level caller
/// that finally matches the owner must hold a subject, and a subject is only
/// issued to authenticated callers.
pub proof fn lemma_preliminary_not_stricter(
    m: RequestMetadata,
    access: OwnedAccess,
    owner: Option<Seq<char>>,
)
    requires
        m.user_sub is Some ==> m.is_authenticated,
    ensures
        spec_allowed_owned(m, access, owner) ==> spec_preliminary(m, access),
{
}

} // verus!
