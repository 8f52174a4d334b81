use newsapi::decode_response;
use newsapi::evaluate_fetch;
use newsapi::evaluate_fetch_async;
use newsapi::evaluate_raw_fetch;
use newsapi::map_response_err;
use newsapi::build_url;
use newsapi::AsyncTransport;
use newsapi::Country;
use newsapi::EndPoint;
use newsapi::NewsAPI;
use newsapi::NewsAPIError;
use newsapi::Transport;

#[test]
fn url_builder_top_headlines_us() {
    let api = NewsAPI::new("some-key");
    let url = api.prepare_url().unwrap();
    assert_eq!(url, "https://newsapi.org/v2/top-headlines?country=us");
}

#[test]
fn url_builder_is_deterministic() {
    let api = NewsAPI::new("some-key");
    assert_eq!(api.prepare_url().unwrap(), api.prepare_url().unwrap());
}

#[test]
fn url_builder_from_arbitrary_base() {
    let url = build_url("https://example.net/v2", &EndPoint::TopHeadlines, &Country::Us).unwrap();
    assert_eq!(url, "https://example.net/v2/top-headlines?country=us");
}

#[test]
fn url_builder_rejects_invalid_base() {
    let r = build_url("not a base url", &EndPoint::TopHeadlines, &Country::Us);
    assert!(matches!(r, Err(NewsAPIError::UrlParseFailed)));
}

#[test]
fn setters_keep_the_url_shape() {
    let mut api = NewsAPI::new("some-key");
    api.endpoint(EndPoint::TopHeadlines);
    api.country(Country::Us);
    assert_eq!(api.api_key(), "some-key");
    assert_eq!(
        api.prepare_url().unwrap(),
        "https://newsapi.org/v2/top-headlines?country=us"
    );
}

#[test]
fn decoder_round_trip() {
    let mut article = serde_json::Map::new();
    article.insert(
        "title".to_string(),
        serde_json::Value::String("t".to_string()),
    );
    article.insert("url".to_string(), serde_json::Value::String("u".to_string()));
    let mut obj = serde_json::Map::new();
    obj.insert(
        "status".to_string(),
        serde_json::Value::String("ok".to_string()),
    );
    obj.insert(
        "articles".to_string(),
        serde_json::Value::Array(vec![serde_json::Value::Object(article)]),
    );
    obj.insert("code".to_string(), serde_json::Value::Null);
    let body = serde_json::Value::Object(obj).to_string();

    let resp = decode_response(&body).unwrap();
    assert_eq!(resp.status(), "ok");
    let articles = resp.articles();
    assert_eq!(articles.len(), 1);
    assert_eq!(articles[0].title(), "t");
    assert_eq!(articles[0].url(), "u");
}

#[test]
fn error_mapper_known_code() {
    let e = map_response_err(Some("apiKeyDisabled".to_string()));
    match e {
        NewsAPIError::BadRequest(reason) => assert_eq!(reason, "Your API Key was disabled"),
        _ => panic!("expected BadRequest"),
    }
}

#[test]
fn error_mapper_unknown_code() {
    let e = map_response_err(Some("rateLimited".to_string()));
    match e {
        NewsAPIError::BadRequest(reason) => assert_eq!(reason, "Unknown error"),
        _ => panic!("expected BadRequest"),
    }
}

#[test]
fn error_mapper_absent_code() {
    let e = map_response_err(None);
    match e {
        NewsAPIError::BadRequest(reason) => assert_eq!(reason, "Unknown error"),
        _ => panic!("expected BadRequest"),
    }
}

#[test]
fn error_mapper_never_empty() {
    let codes = vec![
        None,
        Some("".to_string()),
        Some("apiKeyDisabled".to_string()),
        Some("somethingNew".to_string()),
    ];
    for code in codes {
        match map_response_err(code) {
            NewsAPIError::BadRequest(reason) => assert!(!reason.is_empty()),
            _ => panic!("expected BadRequest"),
        }
    }
}

#[test]
fn status_gating_ignores_code_when_ok() {
    let body = "{\"status\":\"ok\",\"articles\":[],\"code\":\"apiKeyDisabled\"}";
    let r = evaluate_fetch(Transport::Body(body.to_string()));
    let resp = r.unwrap();
    assert_eq!(resp.status(), "ok");
    assert_eq!(resp.articles().len(), 0);
}

#[test]
fn non_ok_status_runs_error_mapper() {
    let body = "{\"status\":\"error\",\"articles\":[],\"code\":\"apiKeyDisabled\"}";
    let r = evaluate_fetch(Transport::Body(body.to_string()));
    match r {
        Err(NewsAPIError::BadRequest(reason)) => {
            assert_eq!(reason, "Your API Key was disabled")
        }
        _ => panic!("expected BadRequest"),
    }
}

#[test]
fn non_ok_status_without_code_is_unknown() {
    let body = "{\"status\":\"error\",\"articles\":[],\"code\":null}";
    let r = evaluate_fetch(Transport::Body(body.to_string()));
    match r {
        Err(NewsAPIError::BadRequest(reason)) => assert_eq!(reason, "Unknown error"),
        _ => panic!("expected BadRequest"),
    }
}

#[test]
fn missing_articles_field_fails() {
    let body = "{\"status\":\"ok\"}";
    let r = decode_response(body);
    assert!(matches!(r, Err(NewsAPIError::ArticlesParsingFailed)));
    let r2 = evaluate_fetch(Transport::Body(body.to_string()));
    assert!(matches!(r2, Err(NewsAPIError::ArticlesParsingFailed)));
}

#[test]
fn malformed_bodies_fail_atomically() {
    let bodies = vec![
        "",
        "not json",
        "[]",
        "{\"status\":5,\"articles\":[]}",
        "{\"articles\":[]}",
        "{\"status\":\"ok\",\"articles\":{}}",
        "{\"status\":\"ok\",\"articles\":[5]}",
        "{\"status\":\"ok\",\"articles\":[{\"title\":\"t\"}]}",
        "{\"status\":\"ok\",\"articles\":[{\"title\":\"t\",\"url\":7}]}",
        "{\"status\":\"ok\",\"articles\":[],\"code\":7}",
    ];
    for body in bodies {
        let r = decode_response(body);
        assert!(matches!(r, Err(NewsAPIError::ArticlesParsingFailed)), "{}", body);
    }
}

#[test]
fn unknown_fields_are_ignored() {
    let body = "{\"status\":\"ok\",\"extra\":1,\"articles\":[{\"title\":\"t\",\"url\":\"u\",\"author\":\"a\"}]}";
    let resp = decode_response(body).unwrap();
    assert_eq!(resp.status(), "ok");
    assert_eq!(resp.articles().len(), 1);
    assert_eq!(resp.articles()[0].title(), "t");
}

#[test]
fn transport_failure_propagates() {
    let r = evaluate_fetch(Transport::Failed);
    assert!(matches!(r, Err(NewsAPIError::RequestFailed)));
}

#[test]
fn unreadable_body_propagates() {
    let r = evaluate_fetch(Transport::Unreadable);
    assert!(matches!(r, Err(NewsAPIError::ResponseToStringFailed)));
}

#[test]
fn async_transport_failure_propagates() {
    let r = evaluate_fetch_async(AsyncTransport::Failed);
    assert!(matches!(r, Err(NewsAPIError::AsyncRequestFailed)));
}

#[test]
fn async_decode_failure_maps_to_async_error() {
    let r = evaluate_fetch_async(AsyncTransport::Body("{}".to_string()));
    assert!(matches!(r, Err(NewsAPIError::AsyncRequestFailed)));
}

#[test]
fn async_fetch_gates_on_status() {
    let ok_body = "{\"status\":\"ok\",\"articles\":[{\"title\":\"A\",\"url\":\"http://x\"}],\"code\":null}";
    let resp = evaluate_fetch_async(AsyncTransport::Body(ok_body.to_string())).unwrap();
    assert_eq!(resp.articles().len(), 1);
    let err_body = "{\"status\":\"error\",\"articles\":[],\"code\":null}";
    let r = evaluate_fetch_async(AsyncTransport::Body(err_body.to_string()));
    match r {
        Err(NewsAPIError::BadRequest(reason)) => assert_eq!(reason, "Unknown error"),
        _ => panic!("expected BadRequest"),
    }
}

#[test]
fn fetch_ok_yields_one_article() {
    let body = "{\"status\":\"ok\",\"articles\":[{\"title\":\"A\",\"url\":\"http://x\"}],\"code\":null}";
    let resp = evaluate_fetch(Transport::Body(body.to_string())).unwrap();
    assert_eq!(resp.status(), "ok");
    let articles = resp.articles();
    assert_eq!(articles.len(), 1);
    assert_eq!(articles[0].title(), "A");
    assert_eq!(articles[0].url(), "http://x");
}

#[test]
fn articles_keep_response_order() {
    let body = "{\"status\":\"ok\",\"articles\":[{\"title\":\"first\",\"url\":\"u1\"},{\"title\":\"second\",\"url\":\"u2\"},{\"title\":\"third\",\"url\":\"u3\"}]}";
    let resp = decode_response(body).unwrap();
    let articles = resp.articles();
    assert_eq!(articles.len(), 3);
    assert_eq!(articles[0].title(), "first");
    assert_eq!(articles[1].title(), "second");
    assert_eq!(articles[2].title(), "third");
}

#[test]
fn raw_fetch_never_runs_error_mapper() {
    let body = "{\"status\":\"error\",\"articles\":[],\"code\":\"apiKeyDisabled\"}";
    let resp = evaluate_raw_fetch(Transport::Body(body.to_string())).unwrap();
    assert_eq!(resp.status(), "error");
    assert_eq!(resp.articles().len(), 0);
}

#[test]
fn raw_fetch_propagates_transport_errors() {
    assert!(matches!(
        evaluate_raw_fetch(Transport::Failed),
        Err(NewsAPIError::RequestFailed)
    ));
    assert!(matches!(
        evaluate_raw_fetch(Transport::Unreadable),
        Err(NewsAPIError::ResponseToStringFailed)
    ));
    assert!(matches!(
        evaluate_raw_fetch(Transport::Body("nonsense".to_string())),
        Err(NewsAPIError::ArticlesParsingFailed)
    ));
}
