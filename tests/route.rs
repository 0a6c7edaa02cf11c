use container_registry_gateway::policy::{IssueCounts, Project};
use container_registry_gateway::route::{
    dispatch, health_liveness_get, health_readiness_get, read_decision, v2_routes, write_outcome, Fault,
    ImageCoordinate, ReadDecision, Route,
};
use container_registry_gateway::snyk::organization_integration_import_post;
use container_registry_gateway::snyk::organization_projects_post;
use container_registry_gateway::snyk::ApiError;

fn coordinate(name: &str, reference: &str) -> ImageCoordinate {
    ImageCoordinate { name: name.to_string(), reference: reference.to_string() }
}

#[test]
fn health_probes_answer_ok() {
    assert_eq!(health_liveness_get(), 200);
    assert_eq!(health_readiness_get(), 200);
}

#[test]
fn v2_root_passes_through() {
    assert_eq!(v2_routes("GET", "/v2/"), Route::PassThrough);
    assert_eq!(v2_routes("GET", "/v2/acme/app/blobs/sha256:00"), Route::PassThrough);
}

#[test]
fn manifest_methods_are_dispatched() {
    let uri = "/v2/acme/app/manifests/latest";
    assert_eq!(v2_routes("GET", uri), Route::ManifestRead(coordinate("acme/app", "latest")));
    assert_eq!(v2_routes("HEAD", uri), Route::ManifestRead(coordinate("acme/app", "latest")));
    assert_eq!(v2_routes("PUT", uri), Route::ManifestWrite(coordinate("acme/app", "latest")));
    assert_eq!(v2_routes("DELETE", uri), Route::PassThrough);
    assert_eq!(v2_routes("get", uri), Route::PassThrough);
}

#[test]
fn manifest_name_is_greedy() {
    assert_eq!(
        v2_routes("GET", "/v2/a/manifests/b/manifests/sha256:ab"),
        Route::ManifestRead(coordinate("a/manifests/b", "sha256:ab"))
    );
}

#[test]
fn query_is_not_part_of_the_reference() {
    assert_eq!(
        v2_routes("GET", "/v2/acme/app/manifests/latest?ns=docker.io"),
        Route::ManifestRead(coordinate("acme/app", "latest"))
    );
    assert_eq!(v2_routes("PUT", "/v2/acme/app/manifests/?x"), Route::ManifestWrite(coordinate("acme/app", "")));
    assert_eq!(v2_routes("GET", "/v2/?/manifests/latest"), Route::PassThrough);
}

#[test]
fn dispatch_from_captures() {
    let c = Some(("n".to_string(), "r".to_string()));
    assert_eq!(dispatch("PUT", c.clone()), Route::ManifestWrite(coordinate("n", "r")));
    assert_eq!(dispatch("POST", c), Route::PassThrough);
    assert_eq!(dispatch("GET", None), Route::PassThrough);
}

#[test]
fn coordinate_is_qualified_with_colon() {
    assert_eq!(coordinate("acme/app", "latest").qualified(), "acme/app:latest");
}

#[test]
fn unmonitored_manifest_read_is_forbidden() {
    let search = organization_projects_post::Response { projects: vec![] };
    assert_eq!(
        read_decision(&search),
        ReadDecision::Refuse {
            status: 403,
            body: r#"{"errors":[{"code":"DENIED","message":"Image not monitored for vulnerabilities","details":null}]}"#
                .to_string(),
        }
    );
}

#[test]
fn read_decision_uses_first_project() {
    let clean = Project {
        name: "a".to_string(),
        criticality: vec![],
        issue_counts_by_severity: IssueCounts { critical: 0, high: 0, medium: 0, low: 0 },
    };
    let dirty = Project {
        name: "b".to_string(),
        criticality: vec![],
        issue_counts_by_severity: IssueCounts { critical: 0, high: 0, medium: 2, low: 0 },
    };
    let search = organization_projects_post::Response { projects: vec![clean] };
    assert_eq!(read_decision(&search), ReadDecision::Forward);
    let clean = Project {
        name: "a".to_string(),
        criticality: vec![],
        issue_counts_by_severity: IssueCounts { critical: 0, high: 0, medium: 0, low: 0 },
    };
    let search = organization_projects_post::Response { projects: vec![dirty, clean] };
    assert_eq!(
        read_decision(&search),
        ReadDecision::Refuse {
            status: 403,
            body: r#"{"errors":[{"code":"DENIED","message":"Image exceeded vulnerability threshold medium","details":null}]}"#
                .to_string(),
        }
    );
}

#[test]
fn failed_rescan_masks_proxied_answer() {
    let ok = organization_integration_import_post::Response {};
    assert_eq!(write_outcome::<u16>(Ok(202), Ok(ok)), Ok(202));
    assert_eq!(write_outcome::<u16>(Err(Fault::Proxy), Ok(ok)), Err(Fault::Proxy));
    assert_eq!(
        write_outcome::<u16>(Ok(202), Err(ApiError::UnexpectedStatus(404))),
        Err(Fault::Api(ApiError::UnexpectedStatus(404)))
    );
    assert_eq!(Fault::Proxy.status(), 500);
    assert_eq!(Fault::Api(ApiError::Transport).status(), 500);
}
