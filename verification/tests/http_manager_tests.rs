use http_manager::plan_get;
use http_manager::plan_post;
use http_manager::check_status;
use http_manager::create_get;
use http_manager::create_json_post;
use http_manager::is_server_error_status;
use http_manager::is_success_status;
use http_manager::join_uri;
use http_manager::select_transport;
use http_manager::Exchange;
use http_manager::HttpError;
use http_manager::HttpMethod;
use http_manager::Phase;
use http_manager::TransferEvent;
use http_manager::Transport;
use url::Url;

#[test]
fn test_join_uri() {
    let ret = Url::parse("http://localhost:9850/ext/X/sendMultiple");
    let expected = ret.unwrap();

    let ret = join_uri("http://localhost:9850/", "/ext/X/sendMultiple");
    assert!(ret.is_ok());
    let t = ret.unwrap();
    assert_eq!(t, expected.as_str());

    let ret = join_uri("http://localhost:9850", "/ext/X/sendMultiple");
    assert!(ret.is_ok());
    let t = ret.unwrap();
    assert_eq!(t, expected.as_str());

    let ret = join_uri("http://localhost:9850", "ext/X/sendMultiple");
    assert!(ret.is_ok());
    let t = ret.unwrap();
    assert_eq!(t, expected.as_str());
}

#[test]
fn test_join_uri_four_combinations() {
    let expected = "http://h:9850/ext/X";
    assert_eq!(join_uri("http://h:9850/", "/ext/X").unwrap(), expected);
    assert_eq!(join_uri("http://h:9850", "/ext/X").unwrap(), expected);
    assert_eq!(join_uri("http://h:9850/", "ext/X").unwrap(), expected);
    assert_eq!(join_uri("http://h:9850", "ext/X").unwrap(), expected);
}

#[test]
fn test_join_uri_empty_path_returns_base() {
    let base = Url::parse("http://localhost:9850/").unwrap();
    let joined = join_uri("http://localhost:9850/", "").unwrap();
    assert_eq!(joined, base.as_str());
}

#[test]
fn test_join_uri_normalizes_base() {
    // the parse is not an identity pass-through: the scheme and host are
    // lowercased and the root path slash is added
    let joined = join_uri("HTTP://LocalHost:9850", "").unwrap();
    assert_eq!(joined, "http://localhost:9850/");
}

#[test]
fn test_join_uri_parse_error() {
    // no scheme: the base cannot be parsed as an absolute URL
    let ret = join_uri("missing-scheme.example/path", "ext/X");
    assert!(matches!(ret, Err(HttpError::UrlParse(_))));
}

#[test]
fn test_join_uri_join_error() {
    // the base parses but cannot serve as a base for a relative reference
    let ret = join_uri("mailto:someone@example.com", "ext/X");
    assert!(matches!(ret, Err(HttpError::UrlJoin(_))));
}

#[test]
fn test_create_get_fields() {
    let req = create_get("http://h:9850", "ext/X").unwrap();
    assert_eq!(req.method, HttpMethod::Get);
    assert_eq!(req.url, "http://h:9850/ext/X");
    assert!(req.headers.is_empty());
    assert!(req.body.is_empty());
}

#[test]
fn test_create_get_bad_base() {
    let ret = create_get("not an absolute url", "ext/X");
    match ret {
        Err(HttpError::RequestBuild(cause)) => {
            assert!(matches!(*cause, HttpError::UrlParse(_)));
        }
        _ => panic!("expected a RequestBuild error with a UrlParse cause"),
    }
}

#[test]
fn test_create_json_post_fields() {
    let body = "{\"k\":\"v\"}";
    let req = create_json_post("http://h:9850", "ext/X", body).unwrap();
    assert_eq!(req.method, HttpMethod::Post);
    assert_eq!(req.url, "http://h:9850/ext/X");
    assert_eq!(req.headers.len(), 1);
    assert_eq!(req.headers[0].0, "content-type");
    assert_eq!(req.headers[0].1, "application/json");
    assert_eq!(req.body, body.as_bytes());
}

#[test]
fn test_status_ranges() {
    assert!(is_success_status(200));
    assert!(is_success_status(204));
    assert!(is_success_status(299));
    assert!(!is_success_status(199));
    assert!(!is_success_status(300));
    assert!(!is_server_error_status(404));
    assert!(is_server_error_status(500));
    assert!(is_server_error_status(599));
    assert!(!is_server_error_status(600));
}

#[test]
fn test_check_status_enforced_500() {
    let ret = check_status(500, true);
    match ret {
        Err(HttpError::UnexpectedStatus { code, is_server_error }) => {
            assert_eq!(code, 500);
            assert!(is_server_error);
        }
        _ => panic!("expected an UnexpectedStatus error"),
    }
}

#[test]
fn test_check_status_unenforced_500() {
    assert!(check_status(500, false).is_ok());
}

#[test]
fn test_check_status_enforced_404() {
    let ret = check_status(404, true);
    match ret {
        Err(HttpError::UnexpectedStatus { code, is_server_error }) => {
            assert_eq!(code, 404);
            assert!(!is_server_error);
        }
        _ => panic!("expected an UnexpectedStatus error"),
    }
}

#[test]
fn test_exchange_success_path() {
    let mut ex = Exchange::new(true);
    assert_eq!(ex.phase, Phase::Idle);
    ex.step(TransferEvent::Started);
    assert_eq!(ex.phase, Phase::Connecting);
    ex.step(TransferEvent::ConnectionOpened);
    assert_eq!(ex.phase, Phase::AwaitingResponse);
    ex.step(TransferEvent::HeadersReceived(200));
    assert_eq!(ex.phase, Phase::ReadingBody);
    ex.step(TransferEvent::BodyReceived(vec![1u8, 2, 3]));
    assert_eq!(ex.phase, Phase::Done);
    assert_eq!(ex.outcome().unwrap(), vec![1u8, 2, 3]);
}

#[test]
fn test_exchange_timeout_while_awaiting() {
    let mut ex = Exchange::new(true);
    ex.step(TransferEvent::Started);
    ex.step(TransferEvent::ConnectionOpened);
    ex.step(TransferEvent::TimedOut);
    assert_eq!(ex.phase, Phase::Failed);
    assert!(matches!(ex.outcome(), Err(HttpError::Timeout)));
}

#[test]
fn test_exchange_timeout_while_reading_body() {
    let mut ex = Exchange::new(false);
    ex.step(TransferEvent::Started);
    ex.step(TransferEvent::ConnectionOpened);
    ex.step(TransferEvent::HeadersReceived(200));
    ex.step(TransferEvent::TimedOut);
    assert_eq!(ex.phase, Phase::Failed);
    assert!(matches!(ex.outcome(), Err(HttpError::Timeout)));
}

#[test]
fn test_exchange_status_500_enforced() {
    let mut ex = Exchange::new(true);
    ex.step(TransferEvent::Started);
    ex.step(TransferEvent::ConnectionOpened);
    ex.step(TransferEvent::HeadersReceived(500));
    assert_eq!(ex.phase, Phase::Failed);
    match ex.outcome() {
        Err(HttpError::UnexpectedStatus { code, is_server_error }) => {
            assert_eq!(code, 500);
            assert!(is_server_error);
        }
        _ => panic!("expected an UnexpectedStatus error"),
    }
}

#[test]
fn test_exchange_status_500_unenforced() {
    let mut ex = Exchange::new(false);
    ex.step(TransferEvent::Started);
    ex.step(TransferEvent::ConnectionOpened);
    ex.step(TransferEvent::HeadersReceived(500));
    assert_eq!(ex.phase, Phase::ReadingBody);
    ex.step(TransferEvent::BodyReceived(Vec::new()));
    assert_eq!(ex.phase, Phase::Done);
    assert_eq!(ex.outcome().unwrap(), Vec::<u8>::new());
}

#[test]
fn test_exchange_transport_failure() {
    let mut ex = Exchange::new(true);
    ex.step(TransferEvent::Started);
    ex.step(TransferEvent::TransportFailed("connection refused".to_string()));
    assert_eq!(ex.phase, Phase::Failed);
    match ex.outcome() {
        Err(HttpError::Transport(m)) => assert_eq!(m, "connection refused"),
        _ => panic!("expected a Transport error"),
    }
}

#[test]
fn test_exchange_body_read_failure() {
    let mut ex = Exchange::new(true);
    ex.step(TransferEvent::Started);
    ex.step(TransferEvent::ConnectionOpened);
    ex.step(TransferEvent::HeadersReceived(201));
    ex.step(TransferEvent::BodyFailed("stream closed".to_string()));
    assert_eq!(ex.phase, Phase::Failed);
    match ex.outcome() {
        Err(HttpError::BodyRead(m)) => assert_eq!(m, "stream closed"),
        _ => panic!("expected a BodyRead error"),
    }
}

#[test]
fn test_exchange_ignores_out_of_order_events() {
    let mut ex = Exchange::new(true);
    // not started: nothing but Started applies
    ex.step(TransferEvent::HeadersReceived(200));
    assert_eq!(ex.phase, Phase::Idle);
    ex.step(TransferEvent::Started);
    ex.step(TransferEvent::ConnectionOpened);
    ex.step(TransferEvent::HeadersReceived(200));
    ex.step(TransferEvent::BodyReceived(vec![7u8]));
    // terminal: a late timeout changes nothing
    ex.step(TransferEvent::TimedOut);
    assert_eq!(ex.phase, Phase::Done);
    assert_eq!(ex.outcome().unwrap(), vec![7u8]);
}

#[test]
fn test_select_transport() {
    assert_eq!(select_transport(false, false), Transport::Plain);
    assert_eq!(select_transport(false, true), Transport::Plain);
    assert_eq!(select_transport(true, false), Transport::Tls { insecure: false });
    assert_eq!(select_transport(true, true), Transport::Tls { insecure: true });
}

#[test]
fn test_plan_get_https_is_insecure_tls() {
    let plan = plan_get("https://h:9850", "ext/X").unwrap();
    assert_eq!(plan.request.method, HttpMethod::Get);
    assert_eq!(plan.request.url, "https://h:9850/ext/X");
    assert!(plan.request.headers.is_empty());
    assert!(plan.request.body.is_empty());
    assert_eq!(plan.transport, Transport::Tls { insecure: true });
    assert_eq!(plan.timeout_secs, 15);
    assert!(!plan.check_status_code);
}

#[test]
fn test_plan_get_http_is_plain() {
    let plan = plan_get("http://h:9850", "ext/X").unwrap();
    assert_eq!(plan.transport, Transport::Plain);
    assert_eq!(plan.timeout_secs, 15);
    assert!(!plan.check_status_code);
}

#[test]
fn test_plan_post_fields() {
    let body = "{\"k\":\"v\"}";
    let plan = plan_post("http://h:9850", "ext/X", body).unwrap();
    assert_eq!(plan.request.method, HttpMethod::Post);
    assert_eq!(plan.request.url, "http://h:9850/ext/X");
    assert_eq!(plan.request.headers.len(), 1);
    assert_eq!(plan.request.headers[0].0, "content-type");
    assert_eq!(plan.request.headers[0].1, "application/json");
    assert_eq!(plan.request.body, body.as_bytes());
    assert_eq!(plan.transport, Transport::Plain);
    assert!(!plan.check_status_code);
}

#[test]
fn test_plan_get_bad_base() {
    let ret = plan_get("no scheme here", "ext/X");
    assert!(matches!(ret, Err(HttpError::UrlParse(_))));
}
