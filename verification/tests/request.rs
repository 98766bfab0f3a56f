use consul::errors::Error;
use consul::params::Params;
use consul::request::{
    add_config_options, add_query_options, add_write_options, delete, get, get_response, get_vec,
    get_vec_response, put, read_last_index, request_for, status_is_success, url_input_fits,
    wait_value, write_response, Body, Method, Request, Response, INDEX_HEADER, MAX_URL_INPUT,
    NOT_FOUND,
};
use consul::{Config, QueryOptions, WriteOptions};
use std::time::Duration;

fn text(s: &str) -> String {
    String::from(s)
}

fn local() -> Config {
    Config { address: text("http://127.0.0.1:8500"), datacenter: None, token: None }
}

fn in_datacenter(dc: &str) -> Config {
    Config { address: text("http://127.0.0.1:8500"), datacenter: Some(text(dc)), token: None }
}

fn with_token(token: &str) -> Config {
    Config { address: text("http://127.0.0.1:8500"), datacenter: None, token: Some(text(token)) }
}

fn one(name: &str, value: &str) -> Params {
    let mut params = Params::new();
    params.insert(text(name), text(value));
    params
}

fn answered<R>(status: u16, index: Option<&[u8]>, body: Option<R>) -> Result<Response<R>, String> {
    Ok(Response { status, index: index.map(|b| b.to_vec()), body })
}

#[test]
fn a_read_without_parameters_has_an_empty_query() {
    let request = get("/v1/catalog/nodes", &local(), Params::new(), None).unwrap();
    assert_eq!(request.method, Method::Get);
    assert_eq!(request.url, "http://127.0.0.1:8500/v1/catalog/nodes?");
    assert!(request.headers.is_empty());
    assert!(request.body.is_none());
}

#[test]
fn a_read_appends_its_parameters_as_a_query() {
    let request = get_vec("/v1/kv/web", &local(), one("recurse", ""), None).unwrap();
    assert_eq!(request.url, "http://127.0.0.1:8500/v1/kv/web?recurse=");
    let request = get("/v1/kv/web", &local(), one("a b", "c&d"), None).unwrap();
    assert_eq!(request.url, "http://127.0.0.1:8500/v1/kv/web?a+b=c%26d");
}

#[test]
fn the_datacenter_of_the_call_comes_before_that_of_the_client() {
    let options = QueryOptions { datacenter: Some(text("dc2")), wait_index: None, wait_time: None };
    let request = get("/v1/catalog/nodes", &in_datacenter("dc1"), Params::new(), Some(&options))
        .unwrap();
    assert_eq!(request.url, "http://127.0.0.1:8500/v1/catalog/nodes?dc=dc2");
    let options = WriteOptions { datacenter: Some(text("dc2")) };
    let request = delete("/v1/kv/a", &in_datacenter("dc1"), Params::new(), Some(&options)).unwrap();
    assert_eq!(request.url, "http://127.0.0.1:8500/v1/kv/a?dc=dc2");
}

#[test]
fn the_datacenter_of_the_client_is_the_default() {
    let options = QueryOptions { datacenter: None, wait_index: None, wait_time: None };
    let request = get("/v1/catalog/nodes", &in_datacenter("dc1"), Params::new(), Some(&options))
        .unwrap();
    assert_eq!(request.url, "http://127.0.0.1:8500/v1/catalog/nodes?dc=dc1");
    let request = get("/v1/catalog/nodes", &in_datacenter("dc1"), Params::new(), None).unwrap();
    assert_eq!(request.url, "http://127.0.0.1:8500/v1/catalog/nodes?dc=dc1");
    let request = delete("/v1/kv/a", &in_datacenter("dc1"), Params::new(), None).unwrap();
    assert_eq!(request.url, "http://127.0.0.1:8500/v1/kv/a?dc=dc1");
}

#[test]
fn without_any_datacenter_none_is_sent() {
    let options = WriteOptions { datacenter: None };
    let request = delete("/v1/kv/a", &local(), Params::new(), Some(&options)).unwrap();
    assert_eq!(request.url, "http://127.0.0.1:8500/v1/kv/a?");
}

#[test]
fn the_datacenter_replaces_one_among_the_parameters() {
    let params = add_query_options(one("dc", "mine"), &in_datacenter("dc1"), None);
    assert_eq!(params.entries().clone(), vec![(text("dc"), text("dc1"))]);
    let params = add_write_options(one("dc", "mine"), &local(), None);
    assert_eq!(params.entries().clone(), vec![(text("dc"), text("mine"))]);
}

#[test]
fn a_blocking_read_sends_index_and_wait() {
    let options = QueryOptions { datacenter: None, wait_index: Some(42), wait_time: Some(Duration::from_secs(30)) };
    let request = get("/v1/catalog/nodes", &in_datacenter("dc1"), Params::new(), Some(&options))
        .unwrap();
    assert_eq!(request.url, "http://127.0.0.1:8500/v1/catalog/nodes?dc=dc1&index=42&wait=30s");
    let options = QueryOptions { datacenter: None, wait_index: Some(0), wait_time: None };
    let params = add_query_options(Params::new(), &local(), Some(&options));
    assert_eq!(params.entries().clone(), vec![(text("index"), text("0"))]);
    let options = QueryOptions { datacenter: None, wait_index: None, wait_time: Some(Duration::from_secs(0)) };
    let params = add_query_options(Params::new(), &local(), Some(&options));
    assert_eq!(params.entries().clone(), vec![(text("wait"), text("0s"))]);
}

#[test]
fn a_write_sends_neither_index_nor_wait() {
    let params = add_write_options(Params::new(), &in_datacenter("dc1"), None);
    assert_eq!(params.entries().clone(), vec![(text("dc"), text("dc1"))]);
}

#[test]
fn the_token_goes_into_a_header() {
    let request = get("/v1/catalog/nodes", &with_token("secret"), Params::new(), None).unwrap();
    assert_eq!(request.headers, vec![(text("X-Consul-Token"), text("secret"))]);
    let request: Request<()> =
        put("/v1/kv/a", None, &with_token("secret"), Params::new(), None).unwrap();
    assert_eq!(request.headers, vec![(text("X-Consul-Token"), text("secret"))]);
    let request = delete("/v1/kv/a", &local(), Params::new(), None).unwrap();
    assert!(request.headers.is_empty());
}

#[test]
fn headers_already_there_stay_before_the_token() {
    let request: Request<()> = Request {
        method: Method::Get,
        url: text("http://127.0.0.1:8500/"),
        headers: vec![(text("Accept"), text("application/json"))],
        body: None,
    };
    let request = add_config_options(request, &with_token("secret"));
    assert_eq!(
        request.headers,
        vec![
            (text("Accept"), text("application/json")),
            (text("X-Consul-Token"), text("secret")),
        ]
    );
    assert_eq!(request.url, "http://127.0.0.1:8500/");
}

#[test]
fn a_put_carries_its_body() {
    let request =
        put("/v1/kv/a", Some(Body::AsText::<String>(text("value"))), &local(), Params::new(), None)
            .unwrap();
    assert_eq!(request.method, Method::Put);
    assert_eq!(request.url, "http://127.0.0.1:8500/v1/kv/a?");
    match request.body {
        Some(Body::AsText(value)) => assert_eq!(value, "value"),
        _ => panic!("the body is text"),
    }
    let request = put("/v1/x", Some(Body::AsJson(7u8)), &local(), Params::new(), None).unwrap();
    match request.body {
        Some(Body::AsJson(value)) => assert_eq!(value, 7),
        _ => panic!("the body is JSON"),
    }
}

#[test]
fn a_delete_has_no_body() {
    let request = delete("/v1/kv/a", &local(), Params::new(), None).unwrap();
    assert_eq!(request.method, Method::Delete);
    assert!(request.body.is_none());
}

#[test]
fn an_address_that_is_no_url_is_refused() {
    let config = Config { address: text("127.0.0.1:8500"), datacenter: None, token: None };
    assert_eq!(get("/v1/kv/a", &config, Params::new(), None).err(), Some(Error::UrlBuild));
    let config = Config { address: text(""), datacenter: None, token: None };
    assert_eq!(get_vec("/v1/kv/a", &config, Params::new(), None).err(), Some(Error::UrlBuild));
    assert_eq!(delete("/v1/kv/a", &config, Params::new(), None).err(), Some(Error::UrlBuild));
    let config = Config { address: text("http://[::1"), datacenter: None, token: None };
    let refused: Result<Request<()>, Error> = put("/v1/kv/a", None, &config, Params::new(), None);
    assert_eq!(refused.err(), Some(Error::UrlBuild));
}

#[test]
fn input_over_the_limit_is_refused() {
    assert!(url_input_fits("http://127.0.0.1:8500/v1/kv/a", &vec![(text("dc"), text("dc1"))]));
    let long = "a".repeat(MAX_URL_INPUT - 2);
    assert!(url_input_fits("", &vec![(String::new(), long.clone())]));
    assert!(!url_input_fits("h", &vec![(String::new(), long.clone())]));
    assert_eq!(
        get("/v1/kv/a", &local(), one("x", &long), None).err(),
        Some(Error::UrlBuild)
    );
}

#[test]
fn the_limit_counts_bytes_and_two_for_each_pair() {
    let params = vec![(text("é"), text("€"))];
    let room = MAX_URL_INPUT - 2 - 3 - 2;
    assert!(url_input_fits(&"a".repeat(room), &params));
    assert!(!url_input_fits(&"a".repeat(room + 1), &params));
}

#[test]
fn a_parsed_url_becomes_the_request() {
    let request: Request<()> =
        request_for(Method::Delete, Ok(text("http://h/p")), &with_token("t"), None).unwrap();
    assert_eq!(request.method, Method::Delete);
    assert_eq!(request.url, "http://h/p");
    assert_eq!(request.headers, vec![(text("X-Consul-Token"), text("t"))]);
    assert!(request.body.is_none());
}

#[test]
fn a_refused_url_fails_the_request() {
    let refused: Result<Request<()>, Error> =
        request_for(Method::Get, Err(url::ParseError::EmptyHost), &local(), None);
    assert_eq!(refused.err(), Some(Error::UrlBuild));
}

#[test]
fn the_index_header_is_read_as_a_number() {
    assert_eq!(read_last_index(&None), Ok(None));
    assert_eq!(read_last_index(&Some(b"17".to_vec())), Ok(Some(17)));
    assert_eq!(read_last_index(&Some(b"x".to_vec())), Err(Error::IndexParse));
    assert_eq!(read_last_index(&Some(Vec::new())), Err(Error::IndexParse));
}

#[test]
fn a_read_gives_body_index_and_time() {
    let time = Duration::from_millis(12);
    let (body, meta) = get_response(answered(200, Some(b"99"), Some(text("leader"))), time).unwrap();
    assert_eq!(body, "leader");
    assert_eq!(meta.last_index, Some(99));
    assert_eq!(meta.request_time, time);
}

#[test]
fn a_read_without_index_header_has_no_index() {
    let (body, meta) = get_response(answered(200, None, Some(5u8)), Duration::from_secs(1)).unwrap();
    assert_eq!(body, 5);
    assert_eq!(meta.last_index, None);
    assert_eq!(meta.request_time, Duration::from_secs(1));
}

#[test]
fn no_response_is_a_transport_failure_with_its_cause() {
    let time = Duration::from_millis(1);
    assert_eq!(
        get_response::<u8>(Err(text("connection refused")), time).err(),
        Some(Error::Transport(text("connection refused")))
    );
    assert_eq!(
        get_vec_response::<u8>(Err(text("timed out")), time).err(),
        Some(Error::Transport(text("timed out")))
    );
    assert_eq!(
        write_response::<bool>(Err(text("dns error")), time).err(),
        Some(Error::Transport(text("dns error")))
    );
}

#[test]
fn a_body_that_did_not_decode_is_a_decode_failure() {
    let time = Duration::from_millis(1);
    assert_eq!(get_response::<u8>(answered(200, None, None), time).err(), Some(Error::Decode));
    assert_eq!(get_vec_response::<u8>(answered(200, None, None), time).err(), Some(Error::Decode));
    assert_eq!(get_vec_response::<u8>(answered(500, None, None), time).err(), Some(Error::Decode));
    assert_eq!(write_response::<bool>(answered(200, None, None), time).err(), Some(Error::Decode));
}

#[test]
fn a_single_read_of_a_missing_path_fails_to_decode() {
    let time = Duration::from_millis(1);
    assert_eq!(get_response::<u8>(answered(NOT_FOUND, None, None), time).err(), Some(Error::Decode));
}

#[test]
fn a_malformed_index_is_an_index_failure() {
    let time = Duration::from_millis(1);
    assert_eq!(
        get_response(answered(200, Some(b"abc"), Some(1u8)), time).err(),
        Some(Error::IndexParse)
    );
    assert_eq!(
        get_vec_response(answered(200, Some(b"-1"), Some(vec![1u8])), time).err(),
        Some(Error::IndexParse)
    );
    assert_eq!(
        get_vec_response::<u8>(answered(NOT_FOUND, Some(b""), None), time).err(),
        Some(Error::IndexParse)
    );
}

#[test]
fn a_list_read_with_a_failing_status_fails_whatever_the_body_holds() {
    let time = Duration::from_millis(1);
    assert_eq!(
        get_vec_response(answered(500, None, Some(vec![text("a")])), time).err(),
        Some(Error::Decode)
    );
    assert_eq!(
        get_vec_response(answered(403, Some(b"7"), Some(vec![1u8])), time).err(),
        Some(Error::Decode)
    );
    assert_eq!(
        get_vec_response(answered(301, None, Some(vec![1u8])), time).err(),
        Some(Error::Decode)
    );
    assert_eq!(
        get_vec_response(answered(199, None, Some(vec![1u8])), time).err(),
        Some(Error::Decode)
    );
    assert_eq!(
        get_vec_response(answered(300, None, Some(vec![1u8])), time).err(),
        Some(Error::Decode)
    );
    assert_eq!(get_vec_response(answered(299, None, Some(vec![1u8])), time).unwrap().0, vec![1u8]);
    assert_eq!(get_vec_response(answered(204, None, Some(vec![1u8])), time).unwrap().0, vec![1u8]);
}

#[test]
fn a_single_read_with_a_failing_status_fails_whatever_the_body_holds() {
    let time = Duration::from_millis(1);
    assert_eq!(
        get_response(answered(NOT_FOUND, None, Some(1u8)), time).err(),
        Some(Error::Decode)
    );
    assert_eq!(get_response(answered(500, Some(b"3"), Some(1u8)), time).err(), Some(Error::Decode));
    assert_eq!(get_response(answered(199, None, Some(1u8)), time).err(), Some(Error::Decode));
    assert_eq!(get_response(answered(300, None, Some(1u8)), time).err(), Some(Error::Decode));
    assert_eq!(get_response(answered(200, None, Some(1u8)), time).unwrap().0, 1);
    assert_eq!(get_response(answered(299, None, Some(1u8)), time).unwrap().0, 1);
}

#[test]
fn a_write_with_a_failing_status_fails_whatever_the_body_holds() {
    let time = Duration::from_millis(1);
    assert_eq!(write_response(answered(500, None, Some(true)), time).err(), Some(Error::Decode));
    assert_eq!(
        write_response(answered(NOT_FOUND, None, Some(true)), time).err(),
        Some(Error::Decode)
    );
    assert_eq!(write_response(answered(403, None, Some(false)), time).err(), Some(Error::Decode));
    assert!(write_response(answered(201, None, Some(true)), time).unwrap().0);
}

#[test]
fn a_failing_status_comes_before_a_malformed_index() {
    let time = Duration::from_millis(1);
    assert_eq!(
        get_response(answered(500, Some(b"abc"), Some(1u8)), time).err(),
        Some(Error::Decode)
    );
    assert_eq!(
        get_vec_response(answered(500, Some(b"abc"), Some(vec![1u8])), time).err(),
        Some(Error::Decode)
    );
}

#[test]
fn success_is_a_status_from_200_to_299() {
    assert!(status_is_success(200));
    assert!(status_is_success(204));
    assert!(status_is_success(299));
    assert!(!status_is_success(0));
    assert!(!status_is_success(199));
    assert!(!status_is_success(300));
    assert!(!status_is_success(NOT_FOUND));
    assert!(!status_is_success(500));
    assert!(!status_is_success(u16::MAX));
}

#[test]
fn a_wait_is_sent_in_whole_seconds() {
    assert_eq!(wait_value(0), "0s");
    assert_eq!(wait_value(30), "30s");
    assert_eq!(wait_value(u64::MAX), "18446744073709551615s");
    let options = QueryOptions {
        datacenter: None,
        wait_index: None,
        wait_time: Some(Duration::from_millis(1999)),
    };
    let params = add_query_options(Params::new(), &local(), Some(&options));
    assert_eq!(params.entries().clone(), vec![(text("wait"), text("1s"))]);
    let options = QueryOptions {
        datacenter: None,
        wait_index: None,
        wait_time: Some(Duration::from_millis(999)),
    };
    let params = add_query_options(Params::new(), &local(), Some(&options));
    assert_eq!(params.entries().clone(), vec![(text("wait"), text("0s"))]);
    let options = QueryOptions {
        datacenter: None,
        wait_index: None,
        wait_time: Some(Duration::new(600, 5)),
    };
    let params = add_query_options(Params::new(), &local(), Some(&options));
    assert_eq!(params.entries().clone(), vec![(text("wait"), text("600s"))]);
}

#[test]
fn the_index_comes_in_the_header_of_its_name() {
    assert_eq!(INDEX_HEADER, "X-Consul-Index");
}

#[test]
fn a_decode_failure_comes_before_an_index_failure() {
    let time = Duration::from_millis(1);
    assert_eq!(get_response::<u8>(answered(200, Some(b"abc"), None), time).err(), Some(Error::Decode));
    assert_eq!(
        get_vec_response::<u8>(answered(200, Some(b"abc"), None), time).err(),
        Some(Error::Decode)
    );
}

#[test]
fn a_list_read_of_a_missing_path_is_empty() {
    let time = Duration::from_millis(3);
    let (list, meta) = get_vec_response::<u8>(answered(NOT_FOUND, None, None), time).unwrap();
    assert!(list.is_empty());
    assert_eq!(meta.last_index, None);
    assert_eq!(meta.request_time, time);
    let (list, meta) =
        get_vec_response(answered(NOT_FOUND, Some(b"8"), Some(vec![1u8, 2])), time).unwrap();
    assert!(list.is_empty());
    assert_eq!(meta.last_index, Some(8));
}

#[test]
fn a_list_read_gives_the_list() {
    let time = Duration::from_millis(3);
    let (list, meta) =
        get_vec_response(answered(200, Some(b"+8"), Some(vec![text("a"), text("b")])), time).unwrap();
    assert_eq!(list, vec![text("a"), text("b")]);
    assert_eq!(meta.last_index, Some(8));
    assert_eq!(meta.request_time, time);
}

#[test]
fn a_write_gives_the_flag_of_the_server() {
    let time = Duration::from_millis(4);
    let (done, meta) = write_response(answered(200, None, Some(true)), time).unwrap();
    assert!(done);
    assert_eq!(meta.request_time, time);
    let (done, _) = write_response(answered(200, Some(b"junk"), Some(false)), time).unwrap();
    assert!(!done);
}
