use sendgrid_contact::settings::uses_template;
use sendgrid_contact::text::{eq_ignoring_case, same_text, to_decimal, to_lower};

#[test]
fn to_lower_changes_capital_ascii_letters_only() {
    assert_eq!(to_lower('A'), 'a');
    assert_eq!(to_lower('Z'), 'z');
    assert_eq!(to_lower('m'), 'm');
    assert_eq!(to_lower('@'), '@');
    assert_eq!(to_lower('['), '[');
    assert_eq!(to_lower('-'), '-');
    assert_eq!(to_lower('É'), 'É');
}

#[test]
fn same_text_compares_whole_texts() {
    assert!(same_text("", ""));
    assert!(same_text("api_key", "api_key"));
    assert!(same_text("clé", "clé"));
    assert!(!same_text("api_key", "api_keys"));
    assert!(!same_text("api_key", "Api_key"));
    assert!(!same_text("a", ""));
}

#[test]
fn eq_ignoring_case_agrees_with_std() {
    let samples = ["", "abc", "ABC", "aBc", "abd", "ab", "é", "É", "x-y", "X-Y", "x_y", "ſ", "s"];
    for a in samples {
        for b in samples {
            assert_eq!(eq_ignoring_case(a, b), a.eq_ignore_ascii_case(b), "{:?} {:?}", a, b);
        }
    }
}

#[test]
fn to_decimal_writes_numerals() {
    assert_eq!(to_decimal(0), "0");
    assert_eq!(to_decimal(7), "7");
    assert_eq!(to_decimal(10), "10");
    assert_eq!(to_decimal(1203), "1203");
    assert_eq!(to_decimal(usize::MAX), usize::MAX.to_string());
}

#[test]
fn uses_template_wants_a_non_empty_identifier() {
    assert!(!uses_template(&None));
    assert!(!uses_template(&Some(String::new())));
    assert!(uses_template(&Some("t".to_string())));
}
