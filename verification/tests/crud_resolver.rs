use apigw_router::Access;
use apigw_router::Crud;
use apigw_router::CrudAccess;
use apigw_router::CrudCodec;
use apigw_router::CrudOperation;
use apigw_router::ErrorBehavior;
use apigw_router::HttpMethod;
use apigw_router::QueryParams;
use apigw_router::Request;
use apigw_router::RequestMetadata;
use apigw_router::ResourceId;
use apigw_router::ServerError;
use apigw_router::Validation;
use apigw_router::ValidatorSpec;

struct TestCodec;

fn parse_error(text: &str) -> ServerError {
    ServerError {
        behavior: ErrorBehavior::ForwardToClient,
        message: text.to_string(),
        detail: None,
    }
}

impl CrudCodec<String, String> for TestCodec {
    fn parse_data(&self, body: &str) -> Result<String, ServerError> {
        serde_json::from_str::<String>(body).map_err(|_| parse_error("bad data"))
    }

    fn parse_data_list(&self, body: &str) -> Result<Vec<String>, ServerError> {
        serde_json::from_str::<Vec<String>>(body).map_err(|_| parse_error("bad data list"))
    }

    fn parse_item(&self, body: &str) -> Result<String, ServerError> {
        serde_json::from_str::<String>(body).map_err(|_| parse_error("bad item"))
    }

    fn item_id(&self, item: &String) -> Result<ResourceId, ServerError> {
        ResourceId::from_string(item).ok_or_else(|| parse_error("bad item id"))
    }
}

struct NoRule;

impl ValidatorSpec<CrudOperation<String, String>> for NoRule {
    fn validate(
        &self,
        _request: &Request,
        _data: &CrudOperation<String, String>,
        _metadata: &RequestMetadata,
    ) -> Result<(), ServerError> {
        Ok(())
    }
}

fn req(method: HttpMethod) -> Request {
    Request {
        method,
        path: "/api/thing".to_string(),
        selector: Some("thing".to_string()),
        query: QueryParams::default(),
        body: None,
    }
}

fn user() -> RequestMetadata {
    RequestMetadata {
        is_authenticated: true,
        is_admin: false,
        user_sub: Some("alice".to_string()),
    }
}

fn open_access() -> CrudAccess {
    CrudAccess {
        create: Access::AnyUser,
        read: Access::AnyUser,
        update: Access::AnyUser,
        delete: Access::AnyUser,
        list: Access::AnyUser,
        batch_create: Access::AnyUser,
        batch_read: Access::AnyUser,
        batch_delete: Access::AnyUser,
        delete_all: Access::AnyUser,
        replace_all: Access::AnyUser,
        allow_non_recursive_delete: true,
    }
}

fn route(access: CrudAccess) -> Crud<TestCodec, NoRule> {
    Crud::new(access, Validation::Pass, TestCodec)
}

#[test]
fn test_post_replace_all_takes_precedence_over_body_shape() {
    let crud = route(open_access());
    // Array body: resolves to ReplaceAll, not CreateMultiple.
    let mut r = req(HttpMethod::Post);
    r.query.replace_all = true;
    r.body = Some("[\"x\",\"y\"]".to_string());
    match crud.resolve::<String, String>(&r, &user()) {
        Ok(CrudOperation::ReplaceAll { parent_id, data }) => {
            assert!(parent_id.is_none());
            assert_eq!(data, vec!["x".to_string(), "y".to_string()]);
        }
        _ => panic!("expected ReplaceAll"),
    }
}

#[test]
fn test_post_replace_all_with_object_body_is_parse_error() {
    let crud = route(open_access());
    // A single (non-list) body under replace_all surfaces as a parsing
    // error; it must not fall back to Create.
    let mut r = req(HttpMethod::Post);
    r.query.replace_all = true;
    r.body = Some("\"single\"".to_string());
    match crud.resolve::<String, String>(&r, &user()) {
        Err(e) => assert!(matches!(e.behavior, ErrorBehavior::ForwardToClient)),
        Ok(_) => panic!("expected a parsing error"),
    }
}

#[test]
fn test_post_array_body_resolves_to_create_multiple() {
    let crud = route(open_access());
    let mut r = req(HttpMethod::Post);
    r.body = Some("[\"x\"]".to_string());
    match crud.resolve::<String, String>(&r, &user()) {
        Ok(CrudOperation::CreateMultiple { data, .. }) => {
            assert_eq!(data, vec!["x".to_string()]);
        }
        _ => panic!("expected CreateMultiple"),
    }
}

#[test]
fn test_post_object_body_resolves_to_create() {
    let crud = route(open_access());
    let mut r = req(HttpMethod::Post);
    r.query.parent_id = Some("p|0".to_string());
    r.query.after = Some("a|7".to_string());
    r.body = Some("\"x\"".to_string());
    match crud.resolve::<String, String>(&r, &user()) {
        Ok(CrudOperation::Create { parent_id, after, data }) => {
            let p = parent_id.unwrap();
            assert_eq!((p.pk.as_str(), p.sk.as_str()), ("p", "0"));
            let a = after.unwrap();
            assert_eq!((a.pk.as_str(), a.sk.as_str()), ("a", "7"));
            assert_eq!(data, "x");
        }
        _ => panic!("expected Create"),
    }
}

#[test]
fn test_get_all_takes_precedence_over_ids() {
    let crud = route(open_access());
    let mut r = req(HttpMethod::Get);
    r.query.all = true;
    r.query.ids = Some("a|1,b|2".to_string());
    match crud.resolve::<String, String>(&r, &user()) {
        Ok(CrudOperation::List { parent_id }) => assert!(parent_id.is_none()),
        _ => panic!("expected List"),
    }
}

#[test]
fn test_get_ids_resolves_to_read_multiple() {
    let crud = route(open_access());
    let mut r = req(HttpMethod::Get);
    r.query.ids = Some("a|1, b|2".to_string());
    match crud.resolve::<String, String>(&r, &user()) {
        Ok(CrudOperation::ReadMultiple { ids }) => {
            assert_eq!(ids.len(), 2);
            assert_eq!(ids[1].pk, "b");
        }
        _ => panic!("expected ReadMultiple"),
    }
}

#[test]
fn test_get_single_read_requires_id() {
    let crud = route(open_access());
    let mut r = req(HttpMethod::Get);
    match crud.resolve::<String, String>(&r, &user()) {
        Err(e) => assert!(matches!(e.behavior, ErrorBehavior::ForwardToClient)),
        Ok(_) => panic!("expected a parsing error"),
    }
    r.query.id = Some("a|1".to_string());
    match crud.resolve::<String, String>(&r, &user()) {
        Ok(CrudOperation::Read { id }) => assert_eq!((id.pk.as_str(), id.sk.as_str()), ("a", "1")),
        _ => panic!("expected Read"),
    }
}

#[test]
fn test_put_resolves_to_update() {
    let crud = route(open_access());
    let mut r = req(HttpMethod::Put);
    r.body = Some("\"a|9\"".to_string());
    match crud.resolve::<String, String>(&r, &user()) {
        Ok(CrudOperation::Update { item }) => assert_eq!(item, "a|9"),
        _ => panic!("expected Update"),
    }
}

#[test]
fn test_delete_precedence_all_ids_single() {
    let crud = route(open_access());

    let mut r = req(HttpMethod::Delete);
    r.query.all = true;
    r.query.ids = Some("a|1".to_string());
    r.query.id = Some("b|2".to_string());
    assert!(matches!(
        crud.resolve::<String, String>(&r, &user()),
        Ok(CrudOperation::DeleteAll { .. })
    ));

    let mut r = req(HttpMethod::Delete);
    r.query.ids = Some("a|1".to_string());
    r.query.id = Some("b|2".to_string());
    assert!(matches!(
        crud.resolve::<String, String>(&r, &user()),
        Ok(CrudOperation::DeleteMultiple { .. })
    ));

    let mut r = req(HttpMethod::Delete);
    r.query.id = Some("b|2".to_string());
    match crud.resolve::<String, String>(&r, &user()) {
        Ok(CrudOperation::Delete { id, non_recursive }) => {
            assert_eq!(id.pk, "b");
            assert!(!non_recursive);
        }
        _ => panic!("expected Delete"),
    }
}

#[test]
fn test_non_recursive_delete_refused_before_anything_else() {
    let mut access = open_access();
    access.allow_non_recursive_delete = false;
    let crud = route(access);
    let mut r = req(HttpMethod::Delete);
    r.query.non_recursive = true;
    // Even with a malformed id the refusal comes first: no parsing happens.
    r.query.id = Some("garbage-without-separator".to_string());
    match crud.resolve::<String, String>(&r, &user()) {
        Err(e) => assert!(matches!(e.behavior, ErrorBehavior::ReturnUnauthorized)),
        Ok(_) => panic!("expected denial"),
    }
}

#[test]
fn test_non_recursive_delete_allowed_when_policy_permits() {
    let crud = route(open_access());
    let mut r = req(HttpMethod::Delete);
    r.query.non_recursive = true;
    r.query.id = Some("a|1".to_string());
    match crud.resolve::<String, String>(&r, &user()) {
        Ok(CrudOperation::Delete { non_recursive, .. }) => assert!(non_recursive),
        _ => panic!("expected Delete"),
    }
}

#[test]
fn test_unsupported_method_is_internal_error() {
    let crud = route(open_access());
    let r = req(HttpMethod::Other);
    match crud.resolve::<String, String>(&r, &user()) {
        Err(e) => assert!(matches!(e.behavior, ErrorBehavior::ReturnInternalServerError)),
        Ok(_) => panic!("expected an internal error"),
    }
}

#[test]
fn test_denied_replace_all_rejected_before_parsing() {
    let mut access = open_access();
    access.replace_all = Access::Denied;
    let crud = route(access);
    let mut r = req(HttpMethod::Post);
    r.query.replace_all = true;
    r.body = Some("not even json".to_string());
    match crud.resolve::<String, String>(&r, &user()) {
        Err(e) => assert!(matches!(e.behavior, ErrorBehavior::ReturnUnauthorized)),
        Ok(_) => panic!("expected denial"),
    }
}

#[test]
fn test_batch_create_policy_governs_array_bodies() {
    let mut access = open_access();
    access.batch_create = Access::Denied;
    let crud = route(access);
    let mut r = req(HttpMethod::Post);
    r.body = Some("[\"x\"]".to_string());
    match crud.resolve::<String, String>(&r, &user()) {
        Err(e) => assert!(matches!(e.behavior, ErrorBehavior::ReturnUnauthorized)),
        Ok(_) => panic!("expected denial"),
    }
}
