use loadgen::config::RequestParameters;
use loadgen::request::{BuildError, Method, Request};
use loadgen::text::{dec_string, substitute};

fn template(action: &str, data: Option<&str>, status_code: Option<u16>) -> RequestParameters {
    RequestParameters {
        url: "http://localhost/api".to_string(),
        action: action.to_string(),
        data: data.map(|d| d.to_string()),
        status_code,
    }
}

#[test]
fn decimal_rendering() {
    assert_eq!("0", dec_string(0));
    assert_eq!("7", dec_string(7));
    assert_eq!("907", dec_string(907));
    assert_eq!("18446744073709551615", dec_string(u64::MAX));
}

#[test]
fn substitute_replaces_every_placeholder() {
    assert_eq!("42", substitute("{i}", 42));
    assert_eq!("{\"n\":\"7\"}", substitute("{\"n\":\"{i}\"}", 7));
    assert_eq!("12 and 12", substitute("{i} and {i}", 12));
    assert_eq!("no placeholder", substitute("no placeholder", 3));
    assert_eq!("", substitute("", 3));
    assert_eq!("{x}5{", substitute("{x}{i}{", 5));
}

#[test]
fn placeholder_substitution_uses_the_ordinal() {
    let req = template("POST", Some("{\"n\":\"{i}\"}"), None);
    let built = Request::new(req, "token", 2, 3, 1).unwrap();
    assert_eq!(7, built.request_number);
    assert_eq!(Some("{\"n\":\"7\"}".to_string()), built.body);
}

#[test]
fn build_prepares_method_auth_and_expected_status() {
    let req = template("GET", None, Some(201));
    let built = Request::new(req, "secret-token", 0, 4, 2).unwrap();
    assert_eq!(Method::Get, built.method);
    assert_eq!("http://localhost/api", built.url);
    assert_eq!("Bearer secret-token", built.authorization);
    assert_eq!(None, built.body);
    assert_eq!(Some(201), built.status_code);
    assert_eq!(0, built.executor);
    assert_eq!(2, built.task_in_executor);
    assert_eq!(2, built.request_number);
}

#[test]
fn build_rejects_an_unsupported_action() {
    let req = template("DELETE", None, None);
    assert_eq!(
        Err(BuildError::UnsupportedAction),
        Request::new(req, "t", 0, 1, 1).map(|_| ())
    );
}

#[test]
fn build_rejects_a_body_that_no_longer_parses() {
    let req = template("PUT", Some("{\"a\":"), None);
    assert_eq!(
        Err(BuildError::TemplateSubstitution),
        Request::new(req, "t", 0, 1, 1).map(|_| ())
    );
}

#[test]
fn build_accepts_a_body_that_parses_only_after_substitution() {
    // The raw template is not JSON; the substituted body is.
    let req = template("PUT", Some("{i}"), None);
    let built = Request::new(req, "t", 1, 2, 1).unwrap();
    assert_eq!(Some("3".to_string()), built.body);
}

#[test]
fn evaluate_records_a_status_mismatch() {
    let req = template("GET", None, Some(200));
    let built = Request::new(req, "t", 0, 1, 1).unwrap();
    let err = built.evaluate(Ok(404)).unwrap_err();
    assert_eq!("status code error: expected 200, actual 404", err.msg);
}

#[test]
fn evaluate_accepts_a_matching_status() {
    let req = template("GET", None, Some(200));
    let built = Request::new(req, "t", 0, 1, 1).unwrap();
    assert_eq!(200, built.evaluate(Ok(200)).unwrap());
}

#[test]
fn evaluate_accepts_any_status_without_an_expectation() {
    let req = template("GET", None, None);
    let built = Request::new(req, "t", 0, 1, 1).unwrap();
    assert_eq!(404, built.evaluate(Ok(404)).unwrap());
}

#[test]
fn evaluate_records_a_transport_error() {
    let req = template("GET", None, Some(200));
    let built = Request::new(req, "t", 0, 1, 1).unwrap();
    let err = built.evaluate(Err("connection reset by peer".to_string())).unwrap_err();
    assert_eq!("connection reset by peer", err.msg);
}
