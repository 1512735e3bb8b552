use walrus_store::client::WalrusClient as Resolver;
use walrus_store::{WalrusClient, WalrusError};

#[test]
fn test_walrus_client_new() {
    let aggregator_url = "http://localhost:8080";
    let publisher_url = "http://localhost:8081";
    let client = WalrusClient::new(aggregator_url, publisher_url).unwrap();

    assert_eq!(client.aggregator_url().as_str(), "http://localhost:8080/");
    assert_eq!(client.publisher_url().as_str(), "http://localhost:8081/");
}

#[test]
fn test_walrus_client_invalid_url() {
    let aggregator_url = "invalid-url";
    let publisher_url = "http://localhost:8081";
    let client_result = WalrusClient::new(aggregator_url, publisher_url);
    assert!(client_result.is_err());
    if let Err(WalrusError::InvalidUrl(msg)) = client_result {
        assert!(msg.contains("Invalid aggregator URL"));
    } else {
        panic!("Expected InvalidUrl error");
    }
}

#[test]
fn invalid_publisher_url_is_rejected() {
    let built = WalrusClient::new("http://localhost:8080", "not a url");
    match built {
        Err(WalrusError::InvalidUrl(message)) => {
            assert_eq!(message, "Invalid publisher URL: relative URL without a base");
        }
        _ => panic!("expected InvalidUrl"),
    }
}

#[test]
fn invalid_aggregator_url_is_named_first() {
    let built = WalrusClient::new("", "also bad");
    match built {
        Err(WalrusError::InvalidUrl(message)) => {
            assert_eq!(message, "Invalid aggregator URL: relative URL without a base");
        }
        _ => panic!("expected InvalidUrl"),
    }
}

#[test]
fn invalid_port_is_rejected() {
    let built = WalrusClient::new("http://localhost:99999", "http://localhost:8081");
    match built {
        Err(WalrusError::InvalidUrl(message)) => {
            assert_eq!(message, "Invalid aggregator URL: invalid port number");
        }
        _ => panic!("expected InvalidUrl"),
    }
}

#[test]
fn with_transport_keeps_the_urls() {
    let transport = reqwest::Client::builder().build().unwrap();
    let client =
        Resolver::with_transport("https://agg.example.org/base/", "https://pub.example.org", transport)
            .unwrap();
    assert_eq!(client.aggregator_url().as_str(), "https://agg.example.org/base/");
    assert_eq!(client.publisher_url().as_str(), "https://pub.example.org/");
    let _shared: &reqwest::Client = client.http_client().unwrap();
}

#[test]
fn with_transport_rejects_an_invalid_url() {
    let transport = reqwest::Client::builder().build().unwrap();
    let built = Resolver::with_transport("http://ok.example.org", "::", transport);
    assert!(matches!(built, Err(WalrusError::InvalidUrl(_))));
}

#[test]
fn a_new_client_has_a_transport_here() {
    let client = WalrusClient::new("http://localhost:8080", "http://localhost:8081").unwrap();
    assert!(client.http_client().is_some());
}

#[test]
fn construction_fails_only_on_an_invalid_url() {
    let texts = ["http://a.example/", "https://b.example/x?y#z", "no url", "", "http://[::1", "mailto:x@y"];
    for aggregator in texts {
        for publisher in texts {
            let both_parse =
                reqwest::Url::parse(aggregator).is_ok() && reqwest::Url::parse(publisher).is_ok();
            match WalrusClient::new(aggregator, publisher) {
                Ok(_) => assert!(both_parse),
                Err(WalrusError::InvalidUrl(_)) => assert!(!both_parse),
                Err(_) => panic!("construction fails with InvalidUrl only"),
            }
        }
    }
}
