use ledger_quotes::config::read_quote_params;
use ledger_quotes::errors::CurrencyError;

#[test]
fn parses_two_records_in_order() {
    let yaml = "- url: http://x/eur\n  select: \"#rate\"\n  from: EUR\n  to: USD\n- url: http://x/gbp\n  select: .price\n  from: GBP\n  to: USD\n";
    let params = read_quote_params(yaml).unwrap();
    assert_eq!(params.len(), 2);
    assert_eq!(params[0].url, "http://x/eur");
    assert_eq!(params[0].select, "#rate");
    assert_eq!(params[0].from, "EUR");
    assert_eq!(params[0].to, "USD");
    assert_eq!(params[1].url, "http://x/gbp");
    assert_eq!(params[1].select, ".price");
    assert_eq!(params[1].from, "GBP");
    assert_eq!(params[1].to, "USD");
}

#[test]
fn empty_sequence_is_no_targets() {
    let params = read_quote_params("[]").unwrap();
    assert_eq!(params.len(), 0);
}

#[test]
fn missing_field_is_parse_error() {
    let yaml = "- url: http://x/eur\n  select: \"#rate\"\n  from: EUR\n";
    let err = read_quote_params(yaml).unwrap_err();
    assert!(matches!(err, CurrencyError::SerdeYaml(_)));
}

#[test]
fn malformed_yaml_is_parse_error() {
    let err = read_quote_params(": not yaml : [").unwrap_err();
    assert!(matches!(err, CurrencyError::SerdeYaml(_)));
}

#[test]
fn non_sequence_yaml_is_parse_error() {
    let err = read_quote_params("url: http://x/eur\nselect: s\nfrom: a\nto: b\n").unwrap_err();
    assert!(matches!(err, CurrencyError::SerdeYaml(_)));
}

#[test]
fn wrongly_typed_field_is_parse_error() {
    let yaml = "- url: [1, 2]\n  select: s\n  from: a\n  to: b\n";
    let err = read_quote_params(yaml).unwrap_err();
    assert!(matches!(err, CurrencyError::SerdeYaml(_)));
}

#[test]
fn unknown_fields_are_ignored() {
    let yaml = "- url: http://x/eur\n  select: \"#rate\"\n  from: EUR\n  to: USD\n  note: extra\n";
    let params = read_quote_params(yaml).unwrap();
    assert_eq!(params.len(), 1);
    assert_eq!(params[0].from, "EUR");
}

#[test]
fn duplicate_records_are_kept_independently() {
    let yaml = "- url: http://x/eur\n  select: \"#rate\"\n  from: EUR\n  to: USD\n- url: http://x/eur\n  select: \"#rate\"\n  from: EUR\n  to: USD\n";
    let params = read_quote_params(yaml).unwrap();
    assert_eq!(params.len(), 2);
    assert_eq!(params[0].url, params[1].url);
}

#[test]
fn error_message_names_the_step() {
    let err = read_quote_params("[").unwrap_err();
    let msg = err.message();
    assert!(msg.starts_with("YAML deserialization error "));
}
