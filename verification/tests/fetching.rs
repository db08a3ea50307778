use listing_crawler::config::CrawlConfig;
use listing_crawler::fetch::{
    classify, decimal_string, is_rate_limited, page_url, FetchEvent, PageResult,
    SERVICE_UNAVAILABLE,
};
use listing_crawler::markup::Markers;

#[test]
fn a_failed_send_is_a_transport_error() {
    assert_eq!(classify(FetchEvent::SendFailed), PageResult::TransportError);
}

#[test]
fn service_unavailable_is_rate_limiting() {
    assert_eq!(SERVICE_UNAVAILABLE, 503);
    assert!(is_rate_limited(503));
    assert!(!is_rate_limited(200));
    assert!(!is_rate_limited(429));
    assert!(!is_rate_limited(500));
    assert_eq!(
        classify(FetchEvent::Responded { status: 503, body: None }),
        PageResult::RateLimited
    );
    assert_eq!(
        classify(FetchEvent::Responded { status: 503, body: Some("<html></html>".to_string()) }),
        PageResult::RateLimited
    );
}

#[test]
fn a_decoded_body_is_the_markup() {
    assert_eq!(
        classify(FetchEvent::Responded { status: 200, body: Some("<p>hi</p>".to_string()) }),
        PageResult::Markup("<p>hi</p>".to_string())
    );
    assert_eq!(
        classify(FetchEvent::Responded { status: 404, body: Some("".to_string()) }),
        PageResult::Markup("".to_string())
    );
}

#[test]
fn an_undecodable_body_is_a_transport_error() {
    assert_eq!(
        classify(FetchEvent::Responded { status: 200, body: None }),
        PageResult::TransportError
    );
}

#[test]
fn numbers_are_written_in_decimal() {
    assert_eq!(decimal_string(0), "0");
    assert_eq!(decimal_string(7), "7");
    assert_eq!(decimal_string(10), "10");
    assert_eq!(decimal_string(1234567890), "1234567890");
    assert_eq!(decimal_string(u64::MAX), "18446744073709551615");
    for n in [1u64, 9, 11, 99, 100, 101, 4096, 65535, 1_000_000] {
        assert_eq!(decimal_string(n), n.to_string());
    }
}

#[test]
fn page_address_names_site_term_and_page() {
    assert_eq!(
        page_url("https://example.com", "raspberry+pi", 1),
        "https://example.com/search?query=raspberry+pi&page=1"
    );
    assert_eq!(
        page_url("https://example.com", "raspberry+pi", 27),
        "https://example.com/search?query=raspberry+pi&page=27"
    );
    assert_eq!(page_url("", "", 0), "/search?query=&page=0");
}

#[test]
fn a_config_holds_what_it_was_given() {
    let config = CrawlConfig::new("https://example.com", "raspberry+pi", "Mozilla/5.0");
    assert_eq!(config.site, "https://example.com");
    assert_eq!(config.term, "raspberry+pi");
    assert_eq!(config.user_agent, "Mozilla/5.0");
    assert_eq!(config.markers, Markers::search_results());
}

#[test]
fn the_refusal_status_is_the_one_the_client_names() {
    assert_eq!(reqwest::StatusCode::SERVICE_UNAVAILABLE.as_u16(), SERVICE_UNAVAILABLE);
    assert!(is_rate_limited(reqwest::StatusCode::SERVICE_UNAVAILABLE.as_u16()));
    assert!(!is_rate_limited(reqwest::StatusCode::OK.as_u16()));
    assert!(!is_rate_limited(reqwest::StatusCode::TOO_MANY_REQUESTS.as_u16()));
}
