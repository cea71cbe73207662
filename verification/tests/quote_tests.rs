use ledger_quotes::config::QuoteParams;
use ledger_quotes::errors::CurrencyError;
use ledger_quotes::quote::compose_quote_line;
use ledger_quotes::quote::get_currency;
use ledger_quotes::timefmt::Timestamp;

fn target(select: &str, from: &str, to: &str) -> QuoteParams {
    QuoteParams {
        url: String::from("http://x/eur"),
        select: String::from(select),
        from: String::from(from),
        to: String::from(to),
    }
}

fn is_digits(s: &str) -> bool {
    !s.is_empty() && s.chars().all(|c| c.is_ascii_digit())
}

// The end-to-end example: a stubbed body whose `#rate` node holds `1.0921`
// yields `P <timestamp> EUR 1.0921 USD`.
#[test]
fn end_to_end_example_line() {
    let body = "<span id=\"rate\">1.0921</span>";
    let line = get_currency(&target("#rate", "EUR", "USD"), body).unwrap();
    let parts: Vec<&str> = line.split(' ').collect();
    assert_eq!(parts.len(), 6);
    assert_eq!(parts[0], "P");
    let date: Vec<&str> = parts[1].split('/').collect();
    assert_eq!(date.len(), 3);
    assert_eq!(date[0].len(), 4);
    assert_eq!(date[1].len(), 2);
    assert_eq!(date[2].len(), 2);
    assert!(date.iter().all(|d| is_digits(d)));
    let time: Vec<&str> = parts[2].split(':').collect();
    assert_eq!(time.len(), 3);
    assert!(time.iter().all(|t| t.len() == 2 && is_digits(t)));
    assert_eq!(parts[3], "EUR");
    assert_eq!(parts[4], "1.0921");
    assert_eq!(parts[5], "USD");
}

#[test]
fn invalid_selector_fails_whatever_the_body() {
    for body in ["<span id=\"rate\">1.0921</span>", "", "not html at all"] {
        let err = get_currency(&target("###", "EUR", "USD"), body).unwrap_err();
        assert!(matches!(err, CurrencyError::ScraperSelector(_)));
    }
}

#[test]
fn valid_selector_without_match_is_extraction_error() {
    let body = "<span id=\"other\">1.0921</span>";
    let err = get_currency(&target("#rate", "EUR", "USD"), body).unwrap_err();
    match err {
        CurrencyError::Scraper(msg) => {
            assert_eq!(msg, "Failed to extract currency data #rate");
        },
        other => panic!("expected an extraction error, got {:?}", other),
    }
}

#[test]
fn first_match_in_document_order_wins() {
    let body = "<p class=\"q\">first</p><p class=\"q\">second</p>";
    let line = get_currency(&target(".q", "EUR", "USD"), body).unwrap();
    assert!(line.ends_with(" EUR first USD"));
}

#[test]
fn value_is_taken_verbatim() {
    let body = "<div id=\"rate\">  1 024,50 &amp; more </div>";
    let line = get_currency(&target("#rate", "EUR", "USD"), body).unwrap();
    assert!(line.ends_with(" EUR   1 024,50 &amp; more  USD"));
}

#[test]
fn inner_html_keeps_markup() {
    let body = "<div id=\"rate\"><b>7</b></div>";
    let line = get_currency(&target("#rate", "EUR", "USD"), body).unwrap();
    assert!(line.ends_with(" EUR <b>7</b> USD"));
}

#[test]
fn malformed_html_is_repaired_not_fatal() {
    let body = "<div id=\"rate\">3.5<p>unclosed";
    let line = get_currency(&target("#rate", "EUR", "USD"), body).unwrap();
    assert!(line.contains(" EUR "));
    assert!(line.contains(" USD"));
}

#[test]
fn composed_line_is_exact_for_a_fixed_instant() {
    let ts = Timestamp::from_fields(2024, 1, 1, 0, 0, 0);
    let line = compose_quote_line(&ts, "EUR", "1.0921", "USD");
    assert_eq!(line, "P 2024/01/01 00:00:00 EUR 1.0921 USD");
}

#[test]
fn composed_line_pads_every_field() {
    let ts = Timestamp::from_fields(987, 3, 7, 4, 5, 9);
    let line = compose_quote_line(&ts, "GBP", "2", "JPY");
    assert_eq!(line, "P 0987/03/07 04:05:09 GBP 2 JPY");
}

#[test]
fn clock_fields_out_of_range_are_clamped() {
    let ts = Timestamp::from_fields(123456, 0, 99, 99, 99, 99);
    let line = compose_quote_line(&ts, "A", "1", "B");
    assert_eq!(line, "P 9999/01/31 23:59:59 A 1 B");
}
