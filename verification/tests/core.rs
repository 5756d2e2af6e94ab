use make_data_service::aggregate::{fetch_many, fetch_one};
use make_data_service::normalize::normalize;
use make_data_service::quote::QuoteResult;
use make_data_service::source::{effective_allowed_origins, effective_api_key, quote_url};

fn good_payload(symbol: &str, price: &str, change: &str) -> String {
    format!(
        "{{\"Global Quote\":{{\"01. symbol\":\"{}\",\"05. price\":\"{}\",\"10. change percent\":\"{}\"}}}}",
        symbol, price, change
    )
}

#[test]
fn normalize_well_shaped_payload() {
    let payload = good_payload("AAPL", "123.4500", "1.2345%");
    let q = normalize(&payload, "AAPL").unwrap();
    assert_eq!(q.symbol, "AAPL");
    assert_eq!(q.name, "AAPL Corp");
    assert_eq!(q.price, "123.4500");
    assert_eq!(q.change_percent, "1.2345");
    assert_eq!(q.price.parse::<f64>().unwrap_or(0.0), 123.45);
    assert_eq!(q.change_percent.parse::<f64>().unwrap_or(0.0), 1.2345);
}

#[test]
fn normalize_synthesizes_name_from_requested_symbol() {
    // The payload spells a different symbol than the request: the quote's
    // symbol is the payload's, the display name is the requested one's.
    let payload = good_payload("BRK.A", "1.0", "0.5%");
    let q = normalize(&payload, "brk.a").unwrap();
    assert_eq!(q.symbol, "BRK.A");
    assert_eq!(q.name, "brk.a Corp");
}

#[test]
fn normalize_missing_nested_object_is_an_error_value() {
    let q = normalize("{\"Note\":\"rate limited\"}", "AAPL");
    let message = q.unwrap_err();
    assert!(message.contains("JSON parse error"));
}

#[test]
fn normalize_non_json_payload_is_an_error_value() {
    let q = normalize("<html>not json</html>", "AAPL");
    assert!(q.unwrap_err().contains("JSON parse error"));
}

#[test]
fn normalize_non_string_fields_are_an_error_value() {
    let payload = "{\"Global Quote\":{\"01. symbol\":\"AAPL\",\"05. price\":1.0,\"10. change percent\":\"1%\"}}";
    assert!(normalize(payload, "AAPL").is_err());
}

#[test]
fn non_numeric_price_is_kept_and_coerces_to_zero_downstream() {
    // The silent-coercion policy: a non-numeric price is not an error; the
    // text is kept, and the rim's float coercion turns it into zero.
    let payload = good_payload("AAPL", "N/A", "N/A%");
    let q = normalize(&payload, "AAPL").unwrap();
    assert_eq!(q.price, "N/A");
    assert_eq!(q.change_percent, "N/A");
    assert_eq!(q.price.parse::<f64>().unwrap_or(0.0), 0.0);
    assert_eq!(q.change_percent.parse::<f64>().unwrap_or(0.0), 0.0);
}

#[test]
fn fetch_one_success() {
    let fetched: Result<String, String> = Ok(good_payload("AAPL", "10.5", "2%"));
    match fetch_one(&fetched, "AAPL") {
        QuoteResult::Found(q) => {
            assert_eq!(q.symbol, "AAPL");
            assert_eq!(q.price, "10.5");
            assert_eq!(q.change_percent, "2");
        }
        QuoteResult::Failed { .. } => panic!("lookup should have succeeded"),
    }
}

#[test]
fn fetch_one_transport_failure_is_a_value() {
    let fetched: Result<String, String> = Err("HTTP error: connection refused".to_string());
    match fetch_one(&fetched, "AAPL") {
        QuoteResult::Found(_) => panic!("lookup should have failed"),
        QuoteResult::Failed { symbol, message } => {
            assert_eq!(symbol, "AAPL");
            assert_eq!(message, "HTTP error: connection refused");
        }
    }
}

#[test]
fn fetch_one_parse_failure_echoes_requested_symbol() {
    let fetched: Result<String, String> = Ok("{}".to_string());
    match fetch_one(&fetched, "MSFT") {
        QuoteResult::Found(_) => panic!("lookup should have failed"),
        QuoteResult::Failed { symbol, message } => {
            assert_eq!(symbol, "MSFT");
            assert!(message.contains("JSON parse error"));
        }
    }
}

#[test]
fn fetch_many_keeps_order_and_duplicates_and_isolates_failure() {
    let symbols: Vec<String> = vec!["AAPL".to_string(), "BAD".to_string(), "AAPL".to_string()];
    let fetched: Vec<Result<String, String>> = vec![
        Ok(good_payload("AAPL", "10.0", "1%")),
        Err("HTTP error: boom".to_string()),
        Ok(good_payload("AAPL", "11.0", "2%")),
    ];
    let batch = fetch_many(&symbols, &fetched);
    assert!(batch.overall_success);
    assert_eq!(batch.items.len(), 3);
    match &batch.items[0] {
        QuoteResult::Found(q) => assert_eq!(q.price, "10.0"),
        QuoteResult::Failed { .. } => panic!("item 0 should have succeeded"),
    }
    match &batch.items[1] {
        QuoteResult::Found(_) => panic!("item 1 should have failed"),
        QuoteResult::Failed { symbol, message } => {
            assert_eq!(symbol, "BAD");
            assert_eq!(message, "HTTP error: boom");
        }
    }
    match &batch.items[2] {
        QuoteResult::Found(q) => assert_eq!(q.price, "11.0"),
        QuoteResult::Failed { .. } => panic!("item 2 should have succeeded"),
    }
}

#[test]
fn fetch_many_of_nothing_completes() {
    let symbols: Vec<String> = Vec::new();
    let fetched: Vec<Result<String, String>> = Vec::new();
    let batch = fetch_many(&symbols, &fetched);
    assert!(batch.overall_success);
    assert!(batch.items.is_empty());
}

#[test]
fn quote_url_is_exact() {
    let url = quote_url("AAPL", "demo");
    assert_eq!(
        url,
        "https://www.alphavantage.co/query?function=GLOBAL_QUOTE&symbol=AAPL&apikey=demo"
    );
}

#[test]
fn configuration_defaults() {
    assert_eq!(effective_api_key(None), "demo");
    assert_eq!(effective_api_key(Some("ABC123".to_string())), "ABC123");
    assert_eq!(effective_allowed_origins(None), "http://localhost:3000");
    assert_eq!(
        effective_allowed_origins(Some("https://example.com".to_string())),
        "https://example.com"
    );
}
