//! Unit-level checks of the library's pieces: the routing table, query
//! lookup, the number grammar, the error mapping, and JSON shaping.
use aplicacao_rust::number::is_decimal_number;
use aplicacao_rust::number::normalize_number;
use aplicacao_rust::query::url_decode_text;
use aplicacao_rust::query::query_get;
use aplicacao_rust::AppError;
use aplicacao_rust::MathParams;
use aplicacao_rust::MathResult;
use aplicacao_rust::Operation;
use aplicacao_rust::Route;
use aplicacao_rust::router::route;

#[test]
fn routing_table_matches_the_three_get_routes() {
    assert_eq!(route("GET", "/"), Route::Hello);
    assert_eq!(route("GET", "/add"), Route::Add);
    assert_eq!(route("GET", "/subtract"), Route::Subtract);
}

#[test]
fn routing_table_rejects_other_methods_and_paths() {
    assert_eq!(route("POST", "/"), Route::MethodNotAllowed);
    assert_eq!(route("DELETE", "/add"), Route::MethodNotAllowed);
    assert_eq!(route("get", "/"), Route::MethodNotAllowed);
    assert_eq!(route("GET", ""), Route::NotFound);
    assert_eq!(route("GET", "/addx"), Route::NotFound);
    assert_eq!(route("GET", "/add/"), Route::NotFound);
    assert_eq!(route("POST", "/unknown"), Route::NotFound);
}

#[test]
fn query_lookup_takes_the_first_binding() {
    assert_eq!(query_get("a=1&a=2", "a"), Some("1".to_string()));
    assert_eq!(query_get("b=9&a=1&a=2", "a"), Some("1".to_string()));
}

#[test]
fn query_lookup_keeps_later_equals_signs_in_the_value() {
    assert_eq!(query_get("a=1=2", "a"), Some("1=2".to_string()));
}

#[test]
fn query_lookup_gives_a_bare_key_the_empty_value() {
    assert_eq!(query_get("a&b=2", "a"), Some("".to_string()));
    assert_eq!(query_get("a=", "a"), Some("".to_string()));
}

#[test]
fn query_lookup_misses_absent_keys() {
    assert_eq!(query_get("", "a"), None);
    assert_eq!(query_get("b=5", "a"), None);
    assert_eq!(query_get("ab=5", "a"), None);
    assert_eq!(query_get("A=5", "a"), None);
}

#[test]
fn decimal_grammar_accepts_plain_signed_and_fractional_numbers() {
    assert!(is_decimal_number("5"));
    assert!(is_decimal_number("-10"));
    assert!(is_decimal_number("+2.5"));
    assert!(is_decimal_number("2.5"));
    assert!(is_decimal_number("0"));
    assert!(is_decimal_number("999999999"));
    assert!(is_decimal_number("0.001"));
}

#[test]
fn decimal_grammar_rejects_everything_else() {
    assert!(!is_decimal_number(""));
    assert!(!is_decimal_number("+"));
    assert!(!is_decimal_number("-"));
    assert!(!is_decimal_number("5."));
    assert!(!is_decimal_number(".5"));
    assert!(!is_decimal_number("1e5"));
    assert!(!is_decimal_number("abc"));
    assert!(!is_decimal_number("xyz"));
    assert!(!is_decimal_number("--5"));
    assert!(!is_decimal_number("5.5.5"));
    assert!(!is_decimal_number(" 5"));
    assert!(!is_decimal_number("5 "));
    assert!(!is_decimal_number("NaN"));
    assert!(!is_decimal_number("inf"));
}

#[test]
fn extraction_reports_missing_before_invalid() {
    assert!(matches!(
        MathParams::from_query("a=abc"),
        Err(AppError::MissingParameters)
    ));
}

#[test]
fn extraction_accepts_extra_keys_around_the_operands() {
    let params = MathParams::from_query("x=1&a=5&y=2&b=3").unwrap();
    assert_eq!(params.a(), "5");
    assert_eq!(params.b(), "3");
}

#[test]
fn extraction_rejects_a_bare_operand_key() {
    assert!(matches!(
        MathParams::from_query("a&b=3"),
        Err(AppError::InvalidNumber)
    ));
}

#[test]
fn error_mapping_is_fixed() {
    assert_eq!(AppError::MissingParameters.status(), 400);
    assert_eq!(AppError::InvalidNumber.status(), 400);
    assert_eq!(
        AppError::MissingParameters.message(),
        "Parameters 'a' and 'b' are required"
    );
    assert_eq!(
        AppError::InvalidNumber.message(),
        "Parameters must be valid numbers"
    );
}

#[test]
fn operation_names_are_the_json_tags() {
    assert_eq!(Operation::Addition.name(), "addition");
    assert_eq!(Operation::Subtraction.name(), "subtraction");
}

#[test]
fn json_shaping_places_every_field() {
    let record = MathResult::new(
        Operation::Subtraction,
        "10".to_string(),
        "3".to_string(),
        "7".to_string(),
    );
    assert_eq!(
        record.to_json(),
        "{\"operation\":\"subtraction\",\"a\":10,\"b\":3,\"result\":7}"
    );
}

#[test]
fn form_decoding_handles_plus_escapes_and_malformed_text() {
    assert_eq!(url_decode_text("+5"), " 5");
    assert_eq!(url_decode_text("%2D10"), "-10");
    assert_eq!(url_decode_text("%2b5"), "+5");
    assert_eq!(url_decode_text("a%3Db"), "a=b");
    assert_eq!(url_decode_text("%G1"), "%G1");
    assert_eq!(url_decode_text("%2"), "%2");
    assert_eq!(url_decode_text("%C3%A9"), "%C3%A9");
    assert_eq!(url_decode_text(""), "");
}

#[test]
fn query_lookup_decodes_keys_and_values() {
    assert_eq!(query_get("%61=9", "a"), Some("9".to_string()));
    assert_eq!(query_get("a=%2D10", "a"), Some("-10".to_string()));
    assert_eq!(query_get("a=+5", "a"), Some(" 5".to_string()));
}

#[test]
fn normalization_yields_json_number_syntax() {
    assert_eq!(normalize_number("+5"), "5");
    assert_eq!(normalize_number("007"), "7");
    assert_eq!(normalize_number("000"), "0");
    assert_eq!(normalize_number("-007.10"), "-7.10");
    assert_eq!(normalize_number("0.5"), "0.5");
    assert_eq!(normalize_number("00.5"), "0.5");
    assert_eq!(normalize_number("-0"), "-0");
    assert_eq!(normalize_number("5"), "5");
    assert_eq!(normalize_number("-10"), "-10");
}
