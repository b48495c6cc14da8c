use investments_tinkoff::api::v1::{
    IntercemptorWithNew, InterceptorData, InvestApi, InvestApiTrait, TinkoffInterceptor,
};
use investments_tinkoff::extensions::MetadataExt;
use investments_tinkoff::config::get_env_parse;
use investments_tinkoff::{ApiConfig, Error};
use tonic::metadata::MetadataMap;
use tonic::Request;

fn values(map: &MetadataMap, key: &str) -> Vec<String> {
    map.get_all(key)
        .iter()
        .map(|v| v.to_str().unwrap().to_string())
        .collect()
}

fn stamped(interceptor: &mut TinkoffInterceptor) -> MetadataMap {
    interceptor.call(Request::new(())).expect("never fails").into_parts().0
}

#[test]
fn stamps_token_id_and_app_name() {
    let mut interceptor = TinkoffInterceptor::new(InterceptorData {
        token: "secret".to_string(),
        app_name: Some("my-app".to_string()),
    });
    let map = stamped(&mut interceptor);
    assert_eq!(values(&map, "authorization"), vec!["Bearer secret".to_string()]);
    assert_eq!(values(&map, "x-app-name"), vec!["my-app".to_string()]);
    let ids = values(&map, "x-request-id");
    assert_eq!(ids.len(), 1);
    assert_eq!(ids[0].len(), 36);
    assert_eq!(map.len(), 3);
}

#[test]
fn no_app_name_header_without_label() {
    let mut interceptor = TinkoffInterceptor::new(InterceptorData {
        token: "t".to_string(),
        app_name: None,
    });
    let map = stamped(&mut interceptor);
    assert!(values(&map, "x-app-name").is_empty());
    assert_eq!(values(&map, "authorization"), vec!["Bearer t".to_string()]);
    assert_eq!(map.len(), 2);
}

#[test]
fn request_ids_differ_between_calls() {
    let api = InvestApi::with_token("tok".to_string());
    let mut first = api.tinkoff_interceptor();
    let mut second = api.tinkoff_interceptor();
    let a = values(&stamped(&mut first), "x-request-id");
    let b = values(&stamped(&mut first), "x-request-id");
    let c = values(&stamped(&mut second), "x-request-id");
    assert_ne!(a, b);
    assert_ne!(a, c);
    assert_ne!(b, c);
}

#[test]
fn clients_share_credentials() {
    let api = InvestApi::with_token("tok".to_string()).with_app_name("bot".to_string());
    let mut first: TinkoffInterceptor = api.interceptor();
    let mut second = api.tinkoff_interceptor();
    let a = stamped(&mut first);
    let b = stamped(&mut second);
    assert_eq!(values(&a, "authorization"), values(&b, "authorization"));
    assert_eq!(values(&a, "x-app-name"), values(&b, "x-app-name"));
    assert_eq!(values(&a, "x-app-name"), vec!["bot".to_string()]);
}

#[test]
fn later_app_name_does_not_reach_existing_clients() {
    let api = InvestApi::with_token("tok".to_string());
    let mut early = api.tinkoff_interceptor();
    let api = api.with_app_name("late".to_string());
    let mut late = api.tinkoff_interceptor();
    assert!(values(&stamped(&mut early), "x-app-name").is_empty());
    assert_eq!(values(&stamped(&mut late), "x-app-name"), vec!["late".to_string()]);
}

#[test]
fn unencodable_token_is_skipped() {
    let mut interceptor = TinkoffInterceptor::new(InterceptorData {
        token: "bad\ntoken".to_string(),
        app_name: Some("ok".to_string()),
    });
    let map = stamped(&mut interceptor);
    assert!(values(&map, "authorization").is_empty());
    assert_eq!(values(&map, "x-request-id").len(), 1);
    assert_eq!(values(&map, "x-app-name"), vec!["ok".to_string()]);
}

#[test]
fn safe_append_appends_and_skips() {
    let mut map = MetadataMap::new();
    assert!(map.safe_append("x-key", "one", "first"));
    assert!(map.safe_append("x-key", "two", "second"));
    assert!(!map.safe_append("x-key", "bad\u{7f}", "third"));
    assert_eq!(values(&map, "x-key"), vec!["one".to_string(), "two".to_string()]);
}

#[test]
fn stamp_uses_given_request_id() {
    let interceptor = TinkoffInterceptor::new(InterceptorData {
        token: "abc".to_string(),
        app_name: None,
    });
    let mut map = MetadataMap::new();
    interceptor.stamp(&mut map, "id-1");
    assert_eq!(values(&map, "x-request-id"), vec!["id-1".to_string()]);
    assert_eq!(values(&map, "authorization"), vec!["Bearer abc".to_string()]);
}

#[test]
fn facade_from_config_and_data() {
    let config = ApiConfig::load_from_env(None, Some("tok".to_string())).expect("token present");
    let api = InvestApi::from_config(&config);
    assert_eq!(api.token, "tok");
    assert!(api.app_name.is_none());
    let data = api.with_app_name("app".to_string()).interceptor_data();
    assert_eq!(data.token, "tok");
    assert_eq!(data.app_name.as_deref(), Some("app"));
}

#[test]
fn missing_token_fails_with_config_error() {
    let r = ApiConfig::load_from_env(Some("https://example.org:443/".to_string()), None);
    assert!(matches!(r, Err(Error::ConfigMissingEnv("TINKOFF_TOKEN"))));
}

#[test]
fn config_defaults_endpoint() {
    let c = ApiConfig::load_from_env(None, Some("t".to_string())).expect("token present");
    assert_eq!(c.TINKOFF_API, "https://invest-public-api.tinkoff.ru:443/");
    assert_eq!(c.TINKOFF_TOKEN, "t");
    let c = ApiConfig::load_from_env(Some("https://x:1/".to_string()), Some("t".to_string()))
        .expect("token present");
    assert_eq!(c.TINKOFF_API, "https://x:1/");
}

#[test]
fn get_env_parse_reports_name() {
    assert!(matches!(get_env_parse("NAME", None), Err(Error::ConfigMissingEnv("NAME"))));
    assert_eq!(get_env_parse("NAME", Some("v".to_string())).ok(), Some("v".to_string()));
}

#[test]
fn empty_token_is_malformed() {
    let r = ApiConfig::load_from_env(None, Some(String::new()));
    assert!(matches!(r, Err(Error::ConfigWrongFormat("TINKOFF_TOKEN"))));
}

#[test]
fn safe_append_accepts_token_punctuation_keys() {
    let mut map = MetadataMap::new();
    assert!(map.safe_append("x_trace", "a", "trace"));
    assert!(map.safe_append("grpc.x", "b", "grpc"));
    assert_eq!(values(&map, "x_trace"), vec!["a".to_string()]);
    assert_eq!(values(&map, "grpc.x"), vec!["b".to_string()]);
}

#[test]
fn call_keeps_extensions_and_existing_values() {
    let mut interceptor = TinkoffInterceptor::new(InterceptorData {
        token: "t".to_string(),
        app_name: None,
    });
    let mut request = Request::new(());
    request.metadata_mut().insert("authorization", "old".parse().unwrap());
    request.extensions_mut().insert(7u32);
    let out = interceptor.call(request).expect("never fails");
    assert_eq!(out.extensions().get::<u32>(), Some(&7u32));
    assert_eq!(
        values(out.metadata(), "authorization"),
        vec!["old".to_string(), "Bearer t".to_string()]
    );
}

#[test]
fn transport_and_status_errors_convert() {
    let e: Error = tonic::Status::not_found("x").into();
    assert!(matches!(e, Error::StatusError(_)));
}

#[test]
fn skipped_headers_name_unencodable_values() {
    let bad = TinkoffInterceptor::new(InterceptorData {
        token: "bad\ntoken".to_string(),
        app_name: Some("also\u{7f}bad".to_string()),
    });
    assert_eq!(bad.skipped_headers(), vec!["authorization", "x-app-name"]);
    let good = TinkoffInterceptor::new(InterceptorData {
        token: "tok".to_string(),
        app_name: Some("app".to_string()),
    });
    assert!(good.skipped_headers().is_empty());
}

#[test]
fn generic_interceptor_takes_current_credentials() {
    let api = InvestApi::with_token("tok".to_string()).with_app_name("a".to_string());
    let interceptor: TinkoffInterceptor = api.interceptor();
    assert_eq!(interceptor.data.token, "tok");
    assert_eq!(interceptor.data.app_name.as_deref(), Some("a"));
}
