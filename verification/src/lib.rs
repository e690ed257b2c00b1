//! Dispatch and access-control core for an HTTP-shaped CRUD API.
//!
//! The library resolves an inbound request (method, path selector, query
//! parameters, body) to one of a fixed set of typed operations, decides per
//! operation whether the caller is authorized (with a two-phase scheme for
//! owned resources), runs a composable validation chain, and normalizes the
//! outcome into a uniform wire response.

mod access;
mod crud;
mod errors;
mod function;
mod request;
mod resource_id;
mod response;
mod routing;
mod strutil;
mod validation;
mod validators;

pub use access::Access;
pub use access::CrudAccess;
pub use access::OwnedAccess;
pub use access::OwnedCrudAccess;
pub use access::RequestMetadata;
pub use access::batch_allowed;
pub use access::is_allowed_access;
pub use access::is_allowed_owned_access;
pub use access::lemma_batch_denied_by_single_failure;
pub use access::lemma_denied_always_denies;
pub use access::lemma_preliminary_not_stricter;
pub use access::preliminary_access_check;
pub use access::spec_allowed;
pub use access::spec_allowed_owned;
pub use access::spec_batch_allowed;
pub use access::spec_is_owner;
pub use access::spec_owner_views;
pub use access::spec_preliminary;
pub use access::view_owner;
pub use crud::Crud;
pub use crud::CrudCodec;
pub use crud::CrudOperation;
pub use crud::OwnedCrud;
pub use crud::OwnerLookup;
pub use crud::get_optional_pksk;
pub use crud::get_required_id;
pub use crud::maybe_ids;
pub use crud::spec_non_recursive_refused;
pub use crud::spec_op_fields;
pub use crud::spec_op_shape;
pub use crud::spec_opt_id_ok;
pub use crud::spec_opt_id_view;
pub use crud::spec_opt_rid_view;
pub use crud::spec_owner_evidence;
pub use crud::spec_policy_for;
pub use crud::spec_policy_for_owned;
pub use crud::spec_request_policy;
pub use crud::spec_request_policy_owned;
pub use errors::ErrorBehavior;
pub use errors::ServerError;
pub use function::Function;
pub use function::InputCodec;
pub use function::InputOwner;
pub use function::NullaryFunction;
pub use function::OwnedFunction;
pub use request::HttpMethod;
pub use request::QueryParams;
pub use request::Request;
pub use resource_id::ResourceId;
pub use resource_id::RidView;
pub use resource_id::parse_ids;
pub use resource_id::spec_id_parse_ok;
pub use resource_id::spec_id_views;
pub use resource_id::spec_ids_ok;
pub use resource_id::spec_ids_views;
pub use resource_id::spec_parsed_id;
pub use resource_id::spec_root_id;
pub use response::ContentType;
pub use response::Response;
pub use response::ResponseBody;
pub use response::base64_of;
pub use response::build_err;
pub use response::build_headers;
pub use response::build_ok;
pub use response::build_result;
pub use response::build_simple;
pub use response::gzip_base64;
pub use response::gzip_of;
pub use response::spec_envelope_json;
pub use response::spec_err_body;
pub use response::spec_err_enveloped;
pub use response::spec_err_status;
pub use response::spec_escape_char;
pub use response::spec_escape_json;
pub use response::spec_headers;
pub use response::spec_hex_digit;
pub use routing::RouteTarget;
pub use routing::RoutingConfig;
pub use routing::spec_crud_route;
pub use routing::spec_function_route;
pub use routing::spec_lookup;
pub use strutil::find_char;
pub use strutil::is_space;
pub use strutil::lemma_find_bounds;
pub use strutil::lemma_split_nonempty;
pub use strutil::spec_find;
pub use strutil::spec_split;
pub use strutil::spec_trim;
pub use strutil::spec_trim_end;
pub use strutil::spec_trim_start;
pub use strutil::split_char;
pub use strutil::trim_str;
pub use validation::Validation;
pub use validation::ValidatorSpec;
pub use validation::lemma_any_failure_references_all;
pub use validation::require_any_failure;
pub use validation::spec_any_failure_message;
pub use validation::spec_joined_failures;
pub use validation::spec_messages;
pub use validators::AdminOnly;
pub use validators::admin_only_decision;
pub use validators::PayloadTest;
