use std::io::Read;

use apigw_router::Access;
use apigw_router::Crud;
use apigw_router::CrudAccess;
use apigw_router::CrudCodec;
use apigw_router::CrudOperation;
use apigw_router::ErrorBehavior;
use apigw_router::HttpMethod;
use apigw_router::OwnedAccess;
use apigw_router::OwnedCrud;
use apigw_router::OwnedCrudAccess;
use apigw_router::OwnerLookup;
use apigw_router::QueryParams;
use apigw_router::Request;
use apigw_router::RequestMetadata;
use apigw_router::ResourceId;
use apigw_router::ResponseBody;
use apigw_router::ServerError;
use apigw_router::Validation;
use apigw_router::ValidatorSpec;
use apigw_router::build_err;
use apigw_router::build_result;
use base64::Engine as _;

struct TestCodec;

fn parse_error(text: &str) -> ServerError {
    ServerError {
        behavior: ErrorBehavior::ForwardToClient,
        message: text.to_string(),
        detail: None,
    }
}

impl CrudCodec<String, String> for TestCodec {
    fn parse_data(&self, body: &str) -> Result<String, ServerError> {
        serde_json::from_str::<String>(body).map_err(|_| parse_error("bad data"))
    }

    fn parse_data_list(&self, body: &str) -> Result<Vec<String>, ServerError> {
        serde_json::from_str::<Vec<String>>(body).map_err(|_| parse_error("bad data list"))
    }

    fn parse_item(&self, body: &str) -> Result<String, ServerError> {
        serde_json::from_str::<String>(body).map_err(|_| parse_error("bad item"))
    }

    fn item_id(&self, item: &String) -> Result<ResourceId, ServerError> {
        ResourceId::from_string(item).ok_or_else(|| parse_error("bad item id"))
    }
}

struct NoRule;

impl ValidatorSpec<CrudOperation<String, String>> for NoRule {
    fn validate(
        &self,
        _request: &Request,
        _data: &CrudOperation<String, String>,
        _metadata: &RequestMetadata,
    ) -> Result<(), ServerError> {
        Ok(())
    }
}

struct AliceOwnsEverything;

impl OwnerLookup for AliceOwnsEverything {
    fn owner_of_id(&self, _id: &ResourceId) -> Option<String> {
        Some("alice".to_string())
    }

    fn owner_of_parent_id(&self, _id: &ResourceId) -> Option<String> {
        Some("alice".to_string())
    }
}

fn req(method: HttpMethod) -> Request {
    Request {
        method,
        path: "/api/thing".to_string(),
        selector: Some("thing".to_string()),
        query: QueryParams::default(),
        body: None,
    }
}

fn decode(payload: &str) -> String {
    let decoded = base64::engine::general_purpose::STANDARD
        .decode(payload)
        .expect("failed to decode base64 payload");
    let mut gz = flate2::read::GzDecoder::new(&decoded[..]);
    let mut s = String::new();
    gz.read_to_string(&mut s)
        .expect("failed to decompress gzip payload");
    s
}

#[test]
fn test_unauthenticated_get_of_user_level_route() {
    // A User-level non-owned read by an unauthenticated caller: denied at
    // authorization, surfaced as the bare unauthorized response with the
    // generic text and no leaked detail.
    let access = CrudAccess {
        read: Access::AnyUser,
        ..Default::default()
    };
    let crud: Crud<TestCodec, NoRule> = Crud::new(access, Validation::Pass, TestCodec);
    let mut r = req(HttpMethod::Get);
    r.query.id = Some("a|1".to_string());
    let guest = RequestMetadata {
        is_authenticated: false,
        is_admin: false,
        user_sub: None,
    };
    let err = crud.resolve::<String, String>(&r, &guest).unwrap_err();
    let response = build_err(&err);
    assert_eq!(response.status_code, 401);
    match &response.body {
        ResponseBody::Text(b) => {
            assert_eq!(b, "Unauthorized.");
            assert!(!b.contains("a|1"));
        }
        _ => panic!("expected a text body"),
    }
}

#[test]
fn test_owner_put_with_foreign_owner_denied() {
    // Authenticated Owner-level update where the resolved owner is not the
    // caller's subject.
    let access = OwnedCrudAccess {
        update: OwnedAccess::Owner,
        ..Default::default()
    };
    let crud: OwnedCrud<AliceOwnsEverything, TestCodec, NoRule> =
        OwnedCrud::new(AliceOwnsEverything, access, Validation::Pass, TestCodec);
    let mut r = req(HttpMethod::Put);
    r.body = Some("\"a|9\"".to_string());
    let bob = RequestMetadata {
        is_authenticated: true,
        is_admin: false,
        user_sub: Some("bob".to_string()),
    };
    let err = crud.resolve::<String, String>(&r, &bob).unwrap_err();
    assert!(matches!(err.behavior, ErrorBehavior::ReturnUnauthorized));
    let response = build_err(&err);
    assert_eq!(response.status_code, 401);
}

#[test]
fn test_successful_create_envelope_decodes_to_handler_value() {
    // A successful Create, the handler's return serialized and wrapped:
    // the envelope carries ok:true and a data field that decodes
    // (base64 -> gzip -> JSON) back to the handler's value.
    let access = CrudAccess {
        create: Access::AnyUser,
        ..Default::default()
    };
    let crud: Crud<TestCodec, NoRule> = Crud::new(access, Validation::Pass, TestCodec);
    let mut r = req(HttpMethod::Post);
    r.body = Some("\"fresh item\"".to_string());
    let alice = RequestMetadata {
        is_authenticated: true,
        is_admin: false,
        user_sub: Some("alice".to_string()),
    };
    let op = crud.resolve::<String, String>(&r, &alice).unwrap();
    let data = match op {
        CrudOperation::Create { data, .. } => data,
        _ => panic!("expected Create"),
    };
    // The business handler echoes the created record.
    let handler_output = format!("created: {}", data);
    let payload = serde_json::to_vec(&handler_output).unwrap();
    let response = build_result(Ok(payload));
    assert_eq!(response.status_code, 200);
    let body: serde_json::Value = match &response.body {
        ResponseBody::Text(b) => serde_json::from_str(b).unwrap(),
        _ => panic!("expected a text body"),
    };
    assert_eq!(body["ok"].as_bool().unwrap(), true);
    let round_trip: String =
        serde_json::from_str(&decode(body["data"].as_str().unwrap())).unwrap();
    assert_eq!(round_trip, "created: fresh item");
}

#[test]
fn test_handler_error_flows_through_build_result() {
    let err = ServerError {
        behavior: ErrorBehavior::ForwardToClient,
        message: "business said no".to_string(),
        detail: None,
    };
    let response = build_result(Err(err));
    assert_eq!(response.status_code, 200);
    let body: serde_json::Value = match &response.body {
        ResponseBody::Text(b) => serde_json::from_str(b).unwrap(),
        _ => panic!("expected a text body"),
    };
    assert_eq!(body["ok"].as_bool().unwrap(), false);
    assert_eq!(body["error"].as_str().unwrap(), "business said no");
}
