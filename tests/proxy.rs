use container_registry_gateway::oci::{Header, Proxy, Response, ResponseError};
use container_registry_gateway::oci::{frame_envelope, frame_error_entry};
use container_registry_gateway::oci_proxy::OciProxy;
use container_registry_gateway::policy::AdmitError;

fn header(name: &str, value: &str) -> Header {
    Header { name: name.to_string(), value: value.as_bytes().to_vec() }
}

#[test]
fn location_with_base_is_made_relative() {
    let proxy = Proxy::new("https://upstream.example".to_string());
    let out = proxy.response(&vec![header("location", "https://upstream.example/x")]);
    assert_eq!(out, vec![header("location", "/x")]);
}

#[test]
fn other_location_passes_unchanged() {
    let proxy = Proxy::new("https://upstream.example".to_string());
    let raw = Header { name: "location".to_string(), value: vec![0x68, 0x74, 0xff, 0x00, 0x2f] };
    let input = vec![
        header("location", "https://other.example/x"),
        raw,
        header("location", "https://upstream.exampl"),
        header("content-type", "https://upstream.example/y"),
    ];
    let expected = vec![
        header("location", "https://other.example/x"),
        Header { name: "location".to_string(), value: vec![0x68, 0x74, 0xff, 0x00, 0x2f] },
        header("location", "https://upstream.exampl"),
        header("content-type", "https://upstream.example/y"),
    ];
    assert_eq!(proxy.response(&input), expected);
}

#[test]
fn host_is_dropped_and_others_kept_in_order() {
    let proxy = Proxy::new("https://upstream.example".to_string());
    let input = vec![
        header("accept", "*/*"),
        header("host", "gateway.example"),
        header("authorization", "Bearer x"),
        header("accept", "application/json"),
    ];
    let out = proxy.request("GET", "/v2/acme/app/manifests/latest?x=1", &input);
    assert_eq!(out.method, "GET");
    assert_eq!(out.uri, "https://upstream.example/v2/acme/app/manifests/latest?x=1");
    assert_eq!(
        out.headers,
        vec![header("accept", "*/*"), header("authorization", "Bearer x"), header("accept", "application/json")]
    );
}

#[test]
fn refusal_envelope_serialises_as_oci_error() {
    let body = Response::denied(&AdmitError::NotMonitored).to_json();
    assert_eq!(
        body,
        r#"{"errors":[{"code":"DENIED","message":"Image not monitored for vulnerabilities","details":null}]}"#
    );
}

#[test]
fn envelope_quotes_and_joins_entries() {
    let r = Response {
        errors: vec![
            ResponseError { code: "A".to_string(), message: "say \"hi\"".to_string(), details: None },
            ResponseError { code: "B".to_string(), message: "x\\y".to_string(), details: Some(()) },
        ],
    };
    assert_eq!(
        r.to_json(),
        r#"{"errors":[{"code":"A","message":"say \"hi\"","details":null},{"code":"B","message":"x\\y","details":null}]}"#
    );
    assert_eq!(Response { errors: vec![] }.to_json(), r#"{"errors":[]}"#);
    assert_eq!(frame_error_entry("1", "2"), r#"{"code":1,"message":2,"details":null}"#);
    assert_eq!(frame_envelope(&vec!["a".to_string(), "b".to_string()]), r#"{"errors":[a,b]}"#);
}

#[test]
fn envelope_escapes_control_characters() {
    let r = Response {
        errors: vec![ResponseError {
            code: "C/1".to_string(),
            message: "a\u{1}b\u{8}\t\n\u{c}\r\u{1f}\u{7f}é/".to_string(),
            details: None,
        }],
    };
    assert_eq!(
        r.to_json(),
        "{\"errors\":[{\"code\":\"C/1\",\"message\":\"a\\u0001b\\b\\t\\n\\f\\r\\u001f\u{7f}é/\",\"details\":null}]}"
    );
}

#[test]
fn oci_proxy_is_created() {
    let p = OciProxy::new("https://registry-1.docker.io".to_string());
    let q = p.clone();
    assert_eq!(format!("{:?}", p), format!("{:?}", q));
}
