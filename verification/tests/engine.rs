use loadgen::config::{Configuration, LoginParameters, RequestParameters};
use loadgen::config::create_requests_from_configuration;
use loadgen::engine::create_executors;
use loadgen::login::form_fields;
use loadgen::request::{BuildError, Method};

fn login_params() -> LoginParameters {
    LoginParameters {
        token_url: "http://localhost/token".to_string(),
        client_id: "cid".to_string(),
        client_secret: "shhh".to_string(),
        username: "user".to_string(),
        password: "pw".to_string(),
        grant_type: "password".to_string(),
    }
}

fn get_template(url: &str) -> RequestParameters {
    RequestParameters {
        url: url.to_string(),
        action: "GET".to_string(),
        data: None,
        status_code: None,
    }
}

#[test]
fn expansion_cycles_the_template_list() {
    let conf = Configuration {
        login: login_params(),
        concurrect_requests: 2,
        iterations: 3,
        requests: vec![get_template("http://a"), get_template("http://b")],
    };
    let expanded = create_requests_from_configuration(&conf);
    assert_eq!(6, expanded.len());
    let urls: Vec<&str> = expanded.iter().map(|r| r.url.as_str()).collect();
    assert_eq!(
        vec!["http://a", "http://b", "http://a", "http://b", "http://a", "http://b"],
        urls
    );
}

#[test]
fn executors_get_round_robin_batches_and_ordinals() {
    let requests: Vec<RequestParameters> =
        (0..5).map(|n| get_template(&format!("http://host/{}", n))).collect();
    let mut executors = create_executors(5, requests, "tok", 3).unwrap();
    assert_eq!(3, executors.len());

    // tasks_per_executor = 5 / 3 = 1
    let expected: [(usize, Vec<(&str, usize)>); 3] = [
        (0, vec![("http://host/0", 1), ("http://host/3", 2)]),
        (1, vec![("http://host/1", 2), ("http://host/4", 3)]),
        (2, vec![("http://host/2", 3)]),
    ];
    for (id, batch) in expected.iter() {
        let mut executor = executors.remove(0);
        assert_eq!(*id, executor.id());
        assert_eq!(batch.len(), executor.len());
        for (url, ordinal) in batch {
            let task = executor.take_next().unwrap();
            assert_eq!(*url, task.url);
            assert_eq!(*ordinal, task.request_number);
            assert_eq!(Method::Get, task.method);
            assert_eq!("Bearer tok", task.authorization);
        }
        assert!(executor.take_next().is_none());
    }
}

#[test]
fn zero_concurrency_is_a_configuration_error() {
    let requests = vec![get_template("http://a")];
    assert_eq!(
        Err(BuildError::InvalidConcurrency),
        create_executors(1, requests, "tok", 0).map(|_| ())
    );
}

#[test]
fn a_bad_template_aborts_executor_creation() {
    let mut requests = vec![get_template("http://a"), get_template("http://b")];
    requests[1].action = "PATCH".to_string();
    assert_eq!(
        Err(BuildError::UnsupportedAction),
        create_executors(2, requests, "tok", 2).map(|_| ())
    );
}

#[test]
fn login_form_fields_carry_the_parameters() {
    let fields = form_fields(&login_params());
    assert_eq!(5, fields.len());
    assert_eq!(("username".to_string(), "user".to_string()), fields[0]);
    assert_eq!("password", fields[1].0);
    assert_eq!("client_id", fields[2].0);
    assert_eq!("client_secret", fields[3].0);
    assert_eq!(("grant_type".to_string(), "password".to_string()), fields[4]);
}
