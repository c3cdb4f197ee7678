use rmcp_axum::middleware::{AuthLayer, Decision};
use rmcp_axum::oauth::{insufficient_scope_response, www_authenticate_401, www_authenticate_403, ResourceServerConfig};

fn config(scope: Option<&str>) -> ResourceServerConfig {
    ResourceServerConfig {
        resource_metadata_url: "https://r".to_string(),
        default_scope: scope.map(|s| s.to_string()),
    }
}

#[test]
fn challenge_401_with_scope() {
    assert_eq!(
        www_authenticate_401(&config(Some("mcp:tools"))),
        "Bearer resource_metadata=\"https://r\", scope=\"mcp:tools\""
    );
}

#[test]
fn challenge_401_without_scope() {
    assert_eq!(www_authenticate_401(&config(None)), "Bearer resource_metadata=\"https://r\"");
}

#[test]
fn challenge_403_insufficient_scope() {
    assert_eq!(
        www_authenticate_403(&config(Some("mcp:tools")), "files:write"),
        "Bearer error=\"insufficient_scope\", scope=\"files:write\", resource_metadata=\"https://r\""
    );
}

#[test]
fn insufficient_scope_response_is_403() {
    let resp = insufficient_scope_response(&config(None), "files:write");
    assert_eq!(resp.status, 403);
    assert_eq!(resp.body, "insufficient scope");
    assert_eq!(
        resp.www_authenticate.as_deref(),
        Some("Bearer error=\"insufficient_scope\", scope=\"files:write\", resource_metadata=\"https://r\"")
    );
}

#[test]
fn failed_authentication_answers_401_with_challenge() {
    let service = AuthLayer::new(()).with_resource_server(config(Some("mcp:tools"))).into_service(());
    match service.decide::<String>(Err("missing authorization header".to_string())) {
        Decision::Reject(resp) => {
            assert_eq!(resp.status, 401);
            assert_eq!(resp.body, "missing authorization header");
            assert_eq!(
                resp.www_authenticate.as_deref(),
                Some("Bearer resource_metadata=\"https://r\", scope=\"mcp:tools\"")
            );
        }
        Decision::Forward(_) => panic!("a failed authentication was forwarded"),
    }
}

#[test]
fn failed_authentication_without_config_has_no_challenge() {
    let service = AuthLayer::new(()).into_service(());
    match service.decide::<String>(Err("bad".to_string())) {
        Decision::Reject(resp) => {
            assert_eq!(resp.status, 401);
            assert_eq!(resp.body, "bad");
            assert!(resp.www_authenticate.is_none());
        }
        Decision::Forward(_) => panic!("a failed authentication was forwarded"),
    }
}

#[test]
fn successful_authentication_forwards_claims() {
    let service = AuthLayer::new(()).into_service(());
    match service.decide(Ok::<String, String>("user1".to_string())) {
        Decision::Forward(c) => assert_eq!(c, "user1"),
        Decision::Reject(_) => panic!("a valid request was rejected"),
    }
}
