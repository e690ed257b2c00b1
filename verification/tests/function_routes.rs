use apigw_router::Access;
use apigw_router::ErrorBehavior;
use apigw_router::Function;
use apigw_router::HttpMethod;
use apigw_router::InputCodec;
use apigw_router::InputOwner;
use apigw_router::NullaryFunction;
use apigw_router::OwnedAccess;
use apigw_router::OwnedFunction;
use apigw_router::QueryParams;
use apigw_router::Request;
use apigw_router::RequestMetadata;
use apigw_router::ServerError;
use apigw_router::Validation;
use apigw_router::ValidatorSpec;

struct JsonString;

impl InputCodec<String> for JsonString {
    fn parse_input(&self, body: &str) -> Result<String, ServerError> {
        serde_json::from_str::<String>(body).map_err(|_| ServerError {
            behavior: ErrorBehavior::ForwardToClient,
            message: "bad input".to_string(),
            detail: None,
        })
    }
}

/// The input itself names its owner.
struct InputIsOwner;

impl InputOwner<String> for InputIsOwner {
    fn owner_of(&self, input: &String) -> String {
        input.clone()
    }
}

struct NoRule;

impl ValidatorSpec<String> for NoRule {
    fn validate(
        &self,
        _request: &Request,
        _data: &String,
        _metadata: &RequestMetadata,
    ) -> Result<(), ServerError> {
        Ok(())
    }
}

impl ValidatorSpec<()> for NoRule {
    fn validate(
        &self,
        _request: &Request,
        _data: &(),
        _metadata: &RequestMetadata,
    ) -> Result<(), ServerError> {
        Ok(())
    }
}

fn req(body: Option<&str>) -> Request {
    Request {
        method: HttpMethod::Post,
        path: "/api/fn".to_string(),
        selector: Some("fn".to_string()),
        query: QueryParams::default(),
        body: body.map(|b| b.to_string()),
    }
}

fn guest() -> RequestMetadata {
    RequestMetadata {
        is_authenticated: false,
        is_admin: false,
        user_sub: None,
    }
}

fn user(sub: &str) -> RequestMetadata {
    RequestMetadata {
        is_authenticated: true,
        is_admin: false,
        user_sub: Some(sub.to_string()),
    }
}

#[test]
fn test_nullary_function_authorizes_by_level() {
    let open: NullaryFunction<NoRule> = NullaryFunction::new(Access::Guest, Validation::Pass);
    assert!(open.resolve(&req(None), &guest()).is_ok());

    let users_only: NullaryFunction<NoRule> =
        NullaryFunction::new(Access::AnyUser, Validation::Pass);
    let e = users_only.resolve(&req(None), &guest()).unwrap_err();
    assert!(matches!(e.behavior, ErrorBehavior::ReturnUnauthorized));
    assert!(users_only.resolve(&req(None), &user("u")).is_ok());
}

#[test]
fn test_unary_function_parses_after_authorization() {
    let route: Function<JsonString, NoRule> =
        Function::new(Access::AnyUser, Validation::Pass, JsonString);
    // Denied caller: rejected before the (malformed) body is touched.
    let e = route
        .resolve::<String>(&req(Some("not json")), &guest())
        .unwrap_err();
    assert!(matches!(e.behavior, ErrorBehavior::ReturnUnauthorized));
    // Admitted caller, malformed body: a parse error.
    let e = route
        .resolve::<String>(&req(Some("not json")), &user("u"))
        .unwrap_err();
    assert!(matches!(e.behavior, ErrorBehavior::ForwardToClient));
    // Admitted caller, good body: the input comes through.
    let input = route
        .resolve::<String>(&req(Some("\"payload\"")), &user("u"))
        .unwrap();
    assert_eq!(input, "payload");
}

#[test]
fn test_owned_function_two_phase_checks() {
    let route: OwnedFunction<InputIsOwner, JsonString, NoRule> = OwnedFunction::new(
        InputIsOwner,
        OwnedAccess::Owner,
        Validation::Pass,
        JsonString,
    );
    // Preliminary rejection: a guest cannot own anything; the body is
    // never parsed.
    let e = route
        .resolve::<String>(&req(Some("not json")), &guest())
        .unwrap_err();
    assert!(matches!(e.behavior, ErrorBehavior::ReturnUnauthorized));
    // Final check compares the caller against the input's owner.
    let input = route
        .resolve::<String>(&req(Some("\"alice\"")), &user("alice"))
        .unwrap();
    assert_eq!(input, "alice");
    let e = route
        .resolve::<String>(&req(Some("\"alice\"")), &user("bob"))
        .unwrap_err();
    assert!(matches!(e.behavior, ErrorBehavior::ReturnUnauthorized));
}
