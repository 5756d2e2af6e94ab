use make_data_service::aggregate::fetch_many;
use make_data_service::http::{
    cors_policy, http_multi_response, http_single_response, http_symbol_list, parse_symbol_list,
    CorsPolicy,
};
use make_data_service::quote::QuoteResult;
use make_data_service::rpc::MyMarketDataService;

fn good_payload(symbol: &str, price: &str, change: &str) -> String {
    format!(
        "{{\"Global Quote\":{{\"01. symbol\":\"{}\",\"05. price\":\"{}\",\"10. change percent\":\"{}\"}}}}",
        symbol, price, change
    )
}

#[test]
fn symbol_list_splits_trims_and_drops_blanks() {
    assert_eq!(parse_symbol_list("AAPL,GOOGL,MSFT"), vec!["AAPL", "GOOGL", "MSFT"]);
    assert_eq!(parse_symbol_list(" AAPL , ,MSFT,"), vec!["AAPL", "MSFT"]);
    assert_eq!(parse_symbol_list("AAPL"), vec!["AAPL"]);
    assert!(parse_symbol_list("").is_empty());
    assert!(parse_symbol_list(" , ,, ").is_empty());
}

#[test]
fn symbol_list_trims_like_the_standard_library() {
    let raw = "\u{00A0}AAPL\u{2003},\tMSFT\r\n";
    let parsed = parse_symbol_list(raw);
    let expected: Vec<String> = raw
        .split(',')
        .map(|s| s.trim().to_string())
        .filter(|s| !s.is_empty())
        .collect();
    assert_eq!(parsed, expected);
    assert_eq!(parsed, vec!["AAPL", "MSFT"]);
}

#[test]
fn empty_or_blank_symbol_list_is_rejected() {
    assert!(http_symbol_list("").is_none());
    assert!(http_symbol_list("  ,  , ").is_none());
    let some = http_symbol_list("AAPL,MSFT").unwrap();
    assert!(!some.is_empty());
    assert_eq!(some, vec!["AAPL", "MSFT"]);
}

#[test]
fn single_route_collapses_failure_to_not_found() {
    let ok = QuoteResult::Found(make_data_service::normalize::normalize(
        &good_payload("AAPL", "10.0", "1%"),
        "AAPL",
    )
    .unwrap());
    let err = QuoteResult::Failed {
        symbol: "BAD".to_string(),
        message: "HTTP error: boom".to_string(),
    };
    let answered = http_single_response(&ok).unwrap();
    assert_eq!(answered.symbol, "AAPL");
    assert!(http_single_response(&err).is_none());
}

#[test]
fn multi_route_drops_failed_items() {
    let symbols: Vec<String> = vec!["AAPL".to_string(), "BAD".to_string(), "MSFT".to_string()];
    let fetched: Vec<Result<String, String>> = vec![
        Ok(good_payload("AAPL", "10.0", "1%")),
        Err("HTTP error: boom".to_string()),
        Ok(good_payload("MSFT", "20.0", "2%")),
    ];
    let batch = fetch_many(&symbols, &fetched);
    let answered = http_multi_response(&batch);
    assert_eq!(answered.len(), 2);
    assert_eq!(answered[0].symbol, "AAPL");
    assert_eq!(answered[1].symbol, "MSFT");
}

#[test]
fn rpc_single_success_reply() {
    let service = MyMarketDataService;
    let fetched: Result<String, String> = Ok(good_payload("AAPL", "123.45", "1.5%"));
    let reply = service.get_stock_price("AAPL", &fetched);
    assert!(reply.success);
    assert_eq!(reply.symbol, "AAPL");
    assert_eq!(reply.name, "AAPL Corp");
    assert_eq!(reply.price, "123.45");
    assert_eq!(reply.change_percent, "1.5");
    assert_eq!(reply.error_message, "");
}

#[test]
fn rpc_single_failure_reply_is_a_transport_success() {
    let service = MyMarketDataService;
    let fetched: Result<String, String> = Err("HTTP error: timed out".to_string());
    let reply = service.get_stock_price("AAPL", &fetched);
    assert!(!reply.success);
    assert_eq!(reply.symbol, "AAPL");
    assert_eq!(reply.name, "");
    assert_eq!(reply.price, "0");
    assert_eq!(reply.change_percent, "0");
    assert_eq!(reply.price.parse::<f64>().unwrap_or(0.0), 0.0);
    assert_eq!(reply.error_message, "HTTP error: timed out");
}

#[test]
fn rpc_batch_keeps_every_item_and_sets_the_coarse_flag() {
    let service = MyMarketDataService;
    let symbols: Vec<String> = vec!["AAPL".to_string(), "BAD".to_string(), "AAPL".to_string()];
    let fetched: Vec<Result<String, String>> = vec![
        Ok(good_payload("AAPL", "10.0", "1%")),
        Err("HTTP error: boom".to_string()),
        Ok(good_payload("AAPL", "11.0", "2%")),
    ];
    let reply = service.get_multiple_stocks(&symbols, &fetched);
    // The outer flag only records completion: it is true although one item
    // failed, so per-item health must be read off each item's own flag.
    assert!(reply.success);
    assert_eq!(reply.error_message, "");
    assert_eq!(reply.stocks.len(), 3);
    assert!(reply.stocks[0].success);
    assert_eq!(reply.stocks[0].price, "10.0");
    assert!(!reply.stocks[1].success);
    assert_eq!(reply.stocks[1].symbol, "BAD");
    assert_eq!(reply.stocks[1].error_message, "HTTP error: boom");
    assert!(reply.stocks[2].success);
    assert_eq!(reply.stocks[2].price, "11.0");
}

#[test]
fn cors_wildcard_allows_any_origin() {
    match cors_policy("*") {
        CorsPolicy::AllowAny => {}
        CorsPolicy::Origins(_) => panic!("wildcard should allow any origin"),
    }
}

#[test]
fn cors_list_is_split_and_trimmed() {
    match cors_policy("http://localhost:3000, https://example.com ,") {
        CorsPolicy::AllowAny => panic!("a list is not the wildcard"),
        CorsPolicy::Origins(origins) => {
            assert_eq!(origins, vec!["http://localhost:3000", "https://example.com"]);
        }
    }
}

#[test]
fn percent_stripping_takes_every_trailing_sign() {
    let q = make_data_service::normalize::normalize(&good_payload("A", "1", "5%%"), "A").unwrap();
    assert_eq!(q.change_percent, "5");
    let q = make_data_service::normalize::normalize(&good_payload("A", "1", "7"), "A").unwrap();
    assert_eq!(q.change_percent, "7");
}
