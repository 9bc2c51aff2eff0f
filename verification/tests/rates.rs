use currency_converter::rates::error_report;
use currency_converter::rates::request_url;
use currency_converter::rates::resolve_rate;
use currency_converter::rates::FetchError;
use currency_converter::rates::FetchOutcome;
use currency_converter::rates::Quote;
use currency_converter::rates::RateTable;

const UPDATED: &str = "2024-01-01 00:00 UTC";

fn sterling_table() -> RateTable {
    let mut table = RateTable::new(UPDATED.to_string());
    table.set_rate("CNY".to_string(), 9.1f64.to_bits());
    table
}

fn fetch(table: RateTable, to: &str) -> Result<(f64, String), FetchError> {
    resolve_rate(FetchOutcome::Parsed(table), to)
        .map(|quote| (f64::from_bits(quote.rate_bits), quote.last_updated))
}

#[test]
fn url_holds_key_and_base() {
    assert_eq!(
        request_url("abc123", "GBP"),
        "https://v6.exchangerate-api.com/v6/abc123/latest/GBP"
    );
}

#[test]
fn url_of_empty_parts() {
    assert_eq!(request_url("", ""), "https://v6.exchangerate-api.com/v6//latest/");
}

#[test]
fn fetch_sterling_to_yuan() {
    let (rate, updated) = fetch(sterling_table(), "CNY").unwrap();
    assert_eq!(rate, 9.1);
    assert_eq!(updated, "2024-01-01 00:00 UTC");
    assert_eq!(10.0 * rate, 91.0);
}

#[test]
fn fetch_absent_target_fails() {
    assert_eq!(fetch(sterling_table(), "USD"), Err(FetchError::RateNotFound));
}

#[test]
fn fetch_from_empty_table_fails() {
    let table = RateTable::new(UPDATED.to_string());
    assert_eq!(fetch(table, "CNY"), Err(FetchError::RateNotFound));
}

#[test]
fn target_is_matched_exactly() {
    assert_eq!(fetch(sterling_table(), "cny"), Err(FetchError::RateNotFound));
    assert_eq!(fetch(sterling_table(), "CNY "), Err(FetchError::RateNotFound));
    assert_eq!(fetch(sterling_table(), ""), Err(FetchError::RateNotFound));
}

#[test]
fn malformed_answer_is_a_parse_error() {
    let outcome = FetchOutcome::Malformed("expected value at line 1 column 1".to_string());
    assert_eq!(
        resolve_rate(outcome, "CNY"),
        Err(FetchError::Parse("expected value at line 1 column 1".to_string()))
    );
}

#[test]
fn failed_request_is_a_transport_error() {
    let outcome = FetchOutcome::TransportFailed("connection refused".to_string());
    assert_eq!(
        resolve_rate(outcome, "CNY"),
        Err(FetchError::Transport("connection refused".to_string()))
    );
}

#[test]
fn quote_keeps_rate_and_time() {
    let mut table = RateTable::new("Mon, 01 Jan 2024 00:00:01 +0000".to_string());
    table.set_rate("USD".to_string(), 1.0f64.to_bits());
    table.set_rate("EUR".to_string(), 0.92f64.to_bits());
    table.set_rate("GBP".to_string(), 0.79f64.to_bits());
    assert_eq!(
        resolve_rate(FetchOutcome::Parsed(table), "EUR"),
        Ok(Quote {
            rate_bits: 0.92f64.to_bits(),
            last_updated: "Mon, 01 Jan 2024 00:00:01 +0000".to_string(),
        })
    );
}

#[test]
fn later_rate_replaces_earlier() {
    let mut table = RateTable::new(UPDATED.to_string());
    table.set_rate("CNY".to_string(), 9.0f64.to_bits());
    table.set_rate("USD".to_string(), 1.27f64.to_bits());
    table.set_rate("CNY".to_string(), 9.1f64.to_bits());
    assert_eq!(table.rate_of("CNY"), Some(9.1f64.to_bits()));
    assert_eq!(table.rate_of("USD"), Some(1.27f64.to_bits()));
    assert_eq!(table.rate_of("EUR"), None);
    assert_eq!(table.last_updated, UPDATED);
}

#[test]
fn forward_and_reverse_amounts() {
    let (rate, _) = fetch(sterling_table(), "CNY").unwrap();
    let amount = 250.0f64;
    assert_eq!(amount * rate, 2275.0);
    assert!((910.0 / rate - 100.0).abs() < 1e-9);
}

#[test]
fn reverse_undoes_forward_at_one_rate() {
    let (rate, _) = fetch(sterling_table(), "CNY").unwrap();
    for amount in [0.0f64, 1.0, 10.0, 123.45, 1e9] {
        let back = (amount * rate) / rate;
        assert!((back - amount).abs() <= 1e-9 * amount.abs().max(1.0));
    }
}

#[test]
fn error_messages() {
    assert_eq!(FetchError::RateNotFound.message(), "Rate not found");
    assert_eq!(FetchError::Parse("bad json".to_string()).message(), "bad json");
    assert_eq!(FetchError::Transport("timed out".to_string()).message(), "timed out");
}

#[test]
fn error_report_line() {
    assert_eq!(
        error_report(&FetchError::RateNotFound),
        "Error fetching exchange rate: Rate not found"
    );
    assert_eq!(
        error_report(&FetchError::Parse("EOF while parsing".to_string())),
        "Error fetching exchange rate: EOF while parsing"
    );
}

/// Stands in for the program around the library: reads a body as the provider writes it.
fn outcome_of_body(body: &str) -> FetchOutcome {
    let value: serde_json::Value = match serde_json::from_str(body) {
        Ok(value) => value,
        Err(e) => return FetchOutcome::Malformed(e.to_string()),
    };
    let rates = value.get("conversion_rates").and_then(|v| v.as_object());
    let updated = value.get("time_last_update_utc").and_then(|v| v.as_str());
    let (rates, updated) = match (rates, updated) {
        (Some(rates), Some(updated)) => (rates, updated),
        _ => return FetchOutcome::Malformed("missing field".to_string()),
    };
    let mut table = RateTable::new(updated.to_string());
    for (code, rate) in rates {
        match rate.as_f64() {
            Some(rate) => table.set_rate(code.clone(), rate.to_bits()),
            None => return FetchOutcome::Malformed("invalid type".to_string()),
        }
    }
    FetchOutcome::Parsed(table)
}

#[test]
fn rate_from_a_body() {
    let body = "{\"result\":\"success\",\"base_code\":\"GBP\",\
        \"time_last_update_utc\":\"2024-01-01 00:00 UTC\",\
        \"conversion_rates\":{\"CNY\":9.1}}";
    let quote = resolve_rate(outcome_of_body(body), "CNY").unwrap();
    assert_eq!(f64::from_bits(quote.rate_bits), 9.1);
    assert_eq!(quote.last_updated, "2024-01-01 00:00 UTC");
    assert_eq!(
        resolve_rate(outcome_of_body(body), "USD"),
        Err(FetchError::RateNotFound)
    );
}

#[test]
fn body_that_is_no_json() {
    let r = resolve_rate(outcome_of_body("<html>busy</html>"), "CNY");
    assert!(matches!(r, Err(FetchError::Parse(_))));
}

#[test]
fn body_of_another_shape() {
    let r = resolve_rate(outcome_of_body("{\"result\":\"error\"}"), "CNY");
    assert_eq!(r, Err(FetchError::Parse("missing field".to_string())));
}
