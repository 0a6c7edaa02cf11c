use container_registry_gateway::oci::Header;
use container_registry_gateway::snyk::organization_integration_import_post;
use container_registry_gateway::snyk::organization_projects_post;
use container_registry_gateway::snyk::{Api, ApiError};

fn api() -> Api {
    Api::new("https://snyk.example".to_string(), "k3y".to_string(), "org1".to_string(), "int9".to_string())
}

fn expected_headers() -> Vec<Header> {
    vec![
        Header { name: "authorization".to_string(), value: b"token k3y".to_vec() },
        Header { name: "content-type".to_string(), value: b"application/json".to_vec() },
    ]
}

#[test]
fn project_search_request() {
    let req = api().organization_projects_post_request("acme/app:latest");
    assert_eq!(req.uri, "https://snyk.example/api/v1/org/org1/projects");
    assert_eq!(req.headers, expected_headers());
    assert_eq!(req.body, r#"{"filters":{"name":"acme/app:latest"}}"#);
}

#[test]
fn rescan_request() {
    let req = api().organization_integration_import_post_request("a\"b:1");
    assert_eq!(req.uri, "https://snyk.example/api/v1/org/org1/integrations/int9/import");
    assert_eq!(req.headers, expected_headers());
    assert_eq!(req.body, r#"{"target":{"name":"a\"b:1"}}"#);
}

#[test]
fn statuses() {
    assert_eq!(organization_projects_post::check_status(200), Ok(()));
    assert_eq!(organization_projects_post::check_status(201), Err(ApiError::UnexpectedStatus(201)));
    assert_eq!(organization_projects_post::check_status(401), Err(ApiError::UnexpectedStatus(401)));
    assert_eq!(
        organization_integration_import_post::check_status(201),
        Ok(organization_integration_import_post::Response {})
    );
    assert_eq!(
        organization_integration_import_post::check_status(200),
        Err(ApiError::UnexpectedStatus(200))
    );
}

#[test]
fn body_framing() {
    assert_eq!(organization_projects_post::frame_request_body("7"), r#"{"filters":{"name":7}}"#);
    assert_eq!(organization_integration_import_post::frame_request_body("7"), r#"{"target":{"name":7}}"#);
}
