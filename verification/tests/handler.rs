use serde_json::Value;
use weather_cache::cache::CacheStore;
use weather_cache::clock::Timestamp;
use weather_cache::config::AppConfig;
use weather_cache::handler::{on_fetched, on_request, Action, Reply};
use weather_cache::upstream::{interpret, FetchError, Resource, Transfer};

fn minute_config() -> AppConfig {
    AppConfig::new(60, "KXYZ1".to_string(), "SECRET-REDACTED".to_string())
}

fn forecast(geocode: &str, language: &str) -> Resource {
    Resource::Forecast { geocode: geocode.to_string(), language: language.to_string() }
}

fn temp(degrees: i64) -> Value {
    let mut fields = serde_json::Map::new();
    fields.insert("temp".to_string(), Value::from(degrees));
    Value::Object(fields)
}

fn payload_of(action: Action) -> Value {
    match action {
        Action::Respond(value) => value,
        Action::Fetch(request) => panic!("asked for a fetch of {}", request.url),
    }
}

fn url_of(action: Action) -> String {
    match action {
        Action::Fetch(request) => request.url,
        Action::Respond(value) => panic!("answered with {value}"),
    }
}

fn payload_in(reply: Reply) -> Value {
    match reply {
        Reply::Payload(value) => value,
        Reply::UpstreamFailure(error) => panic!("failed with {error:?}"),
    }
}

#[test]
fn a_cold_key_asks_for_its_fetch() {
    let store = CacheStore::new();
    let config = minute_config();
    let action = on_request(&store, &config, &Resource::Current, Timestamp::from_secs(0));
    match action {
        Action::Fetch(request) => {
            assert_eq!(request.url, Resource::Current.url(&config));
            assert_eq!(request.accept_encoding, "gzip");
            assert_eq!(request.timeout_secs, 5);
        }
        Action::Respond(value) => panic!("answered with {value}"),
    }
}

#[test]
fn current_is_served_from_the_store_until_it_is_stale() {
    let mut store = CacheStore::new();
    let config = minute_config();
    store.put("current".to_string(), temp(20), Timestamp::from_secs(0));
    let at_30 = on_request(&store, &config, &Resource::Current, Timestamp::from_secs(30));
    assert_eq!(payload_of(at_30), temp(20));
    let at_61 = on_request(&store, &config, &Resource::Current, Timestamp::from_secs(61));
    assert_eq!(url_of(at_61), Resource::Current.url(&config));
    let at_60 = on_request(&store, &config, &Resource::Current, Timestamp::from_secs(60));
    assert_eq!(url_of(at_60), Resource::Current.url(&config));
    let just_before = on_request(&store, &config, &Resource::Current, Timestamp::from_nanos(59_999_999_999));
    assert_eq!(payload_of(just_before), temp(20));
}

#[test]
fn a_fetched_payload_is_kept_and_returned() {
    let mut store = CacheStore::new();
    let reply = on_fetched(&mut store, &Resource::Current, Ok(temp(20)), Timestamp::from_secs(3));
    assert_eq!(reply.status_code(), 200);
    assert_eq!(payload_in(reply), temp(20));
    let entry = store.get("current").unwrap();
    assert_eq!(entry.value(), &temp(20));
    assert_eq!(entry.fetched_at(), Timestamp::from_secs(3));
}

#[test]
fn two_requests_within_the_ttl_fetch_once_and_answer_alike() {
    let mut store = CacheStore::new();
    let config = minute_config();
    let resource = forecast("2614,48", "en-US");
    let first = on_request(&store, &config, &resource, Timestamp::from_secs(10));
    assert_eq!(url_of(first), resource.url(&config));
    let outcome = interpret(&Transfer::Received { status: 200, body: b"{\"temp\":20}".to_vec() });
    let first_reply = payload_in(on_fetched(&mut store, &resource, outcome, Timestamp::from_secs(11)));
    let second_reply = payload_of(on_request(&store, &config, &resource, Timestamp::from_secs(70)));
    let third_reply = payload_of(on_request(&store, &config, &resource, Timestamp::from_secs(12)));
    assert_eq!(first_reply, temp(20));
    assert_eq!(second_reply, first_reply);
    assert_eq!(third_reply, first_reply);
    assert_eq!(
        serde_json::to_vec(&second_reply).unwrap(),
        serde_json::to_vec(&first_reply).unwrap()
    );
    assert_eq!(serde_json::to_vec(&second_reply).unwrap(), b"{\"temp\":20}".to_vec());
}

#[test]
fn a_stale_entry_is_replaced_by_the_next_fetch() {
    let mut store = CacheStore::new();
    let config = minute_config();
    on_fetched(&mut store, &Resource::Current, Ok(temp(20)), Timestamp::from_secs(0));
    let late = on_request(&store, &config, &Resource::Current, Timestamp::from_secs(61));
    assert_eq!(url_of(late), Resource::Current.url(&config));
    let reply = on_fetched(&mut store, &Resource::Current, Ok(temp(25)), Timestamp::from_secs(62));
    assert_eq!(payload_in(reply), temp(25));
    let again = on_request(&store, &config, &Resource::Current, Timestamp::from_secs(100));
    assert_eq!(payload_of(again), temp(25));
}

#[test]
fn forecasts_for_two_languages_cache_independently() {
    let mut store = CacheStore::new();
    let config = minute_config();
    let english = forecast("2614,48", "en-US");
    let french = forecast("2614,48", "fr-FR");
    on_fetched(&mut store, &english, Ok(temp(20)), Timestamp::from_secs(0));
    assert!(store.contains_key("forecast_2614,48_en-US"));
    assert!(!store.contains_key("forecast_2614,48_fr-FR"));
    let asked_french = on_request(&store, &config, &french, Timestamp::from_secs(1));
    assert_eq!(url_of(asked_french), french.url(&config));
    let asked_english = on_request(&store, &config, &english, Timestamp::from_secs(1));
    assert_eq!(payload_of(asked_english), temp(20));
    on_fetched(&mut store, &french, Ok(temp(21)), Timestamp::from_secs(2));
    assert_eq!(payload_of(on_request(&store, &config, &french, Timestamp::from_secs(3))), temp(21));
    assert_eq!(payload_of(on_request(&store, &config, &english, Timestamp::from_secs(3))), temp(20));
}

#[test]
fn the_current_conditions_and_a_forecast_do_not_share_an_entry() {
    let mut store = CacheStore::new();
    let config = minute_config();
    on_fetched(&mut store, &Resource::Current, Ok(temp(20)), Timestamp::from_secs(0));
    let asked = on_request(&store, &config, &forecast("", ""), Timestamp::from_secs(1));
    assert_eq!(url_of(asked), forecast("", "").url(&config));
}

#[test]
fn a_failed_fetch_on_a_cold_key_is_not_cached() {
    let mut store = CacheStore::new();
    let config = minute_config();
    let outcome = interpret(&Transfer::Received { status: 500, body: b"{\"error\":true}".to_vec() });
    assert_eq!(outcome, Err(FetchError::Status));
    let reply = on_fetched(&mut store, &Resource::Current, outcome, Timestamp::from_secs(1));
    assert_eq!(reply.status_code(), 502);
    match reply {
        Reply::UpstreamFailure(error) => assert_eq!(error, FetchError::Status),
        Reply::Payload(value) => panic!("answered with {value}"),
    }
    assert!(!store.contains_key("current"));
    assert!(store.get("current").is_none());
    let next = on_request(&store, &config, &Resource::Current, Timestamp::from_secs(2));
    assert_eq!(url_of(next), Resource::Current.url(&config));
}

#[test]
fn every_kind_of_failure_is_a_server_error_and_leaves_the_store_alone() {
    for error in [FetchError::Transport, FetchError::Status, FetchError::Body] {
        let mut store = CacheStore::new();
        store.put("other".to_string(), temp(1), Timestamp::from_secs(0));
        let reply = on_fetched(&mut store, &Resource::Current, Err(error), Timestamp::from_secs(1));
        assert_eq!(reply.status_code(), 502);
        assert!(!store.contains_key("current"));
        assert_eq!(store.get("other").unwrap().value(), &temp(1));
    }
}

#[test]
fn a_failed_refetch_leaves_the_stale_entry_and_is_tried_again() {
    let mut store = CacheStore::new();
    let config = minute_config();
    on_fetched(&mut store, &Resource::Current, Ok(temp(20)), Timestamp::from_secs(0));
    let reply =
        on_fetched(&mut store, &Resource::Current, Err(FetchError::Transport), Timestamp::from_secs(61));
    assert_eq!(reply.status_code(), 502);
    let entry = store.get("current").unwrap();
    assert_eq!(entry.value(), &temp(20));
    assert_eq!(entry.fetched_at(), Timestamp::from_secs(0));
    let next = on_request(&store, &config, &Resource::Current, Timestamp::from_secs(62));
    assert_eq!(url_of(next), Resource::Current.url(&config));
}

#[test]
fn two_misses_on_one_key_both_fetch_and_the_later_put_wins() {
    let mut store = CacheStore::new();
    let config = minute_config();
    let one = on_request(&store, &config, &Resource::Current, Timestamp::from_secs(0));
    let two = on_request(&store, &config, &Resource::Current, Timestamp::from_secs(0));
    assert_eq!(url_of(one), Resource::Current.url(&config));
    assert_eq!(url_of(two), Resource::Current.url(&config));
    let reply_one = on_fetched(&mut store, &Resource::Current, Ok(temp(20)), Timestamp::from_secs(1));
    let reply_two = on_fetched(&mut store, &Resource::Current, Ok(temp(21)), Timestamp::from_secs(2));
    assert_eq!(payload_in(reply_one), temp(20));
    assert_eq!(payload_in(reply_two), temp(21));
    let entry = store.get("current").unwrap();
    assert_eq!(entry.value(), &temp(21));
    assert_eq!(entry.fetched_at(), Timestamp::from_secs(2));
}

#[test]
fn with_no_time_to_live_every_request_fetches() {
    let mut store = CacheStore::new();
    let config = AppConfig::new(0, "KXYZ1".to_string(), "k".to_string());
    on_fetched(&mut store, &Resource::Current, Ok(temp(20)), Timestamp::from_secs(5));
    let asked = on_request(&store, &config, &Resource::Current, Timestamp::from_secs(5));
    assert_eq!(url_of(asked), Resource::Current.url(&config));
}
