use sendgrid_contact::settings::{ConfigError, Settings, DEFAULT_SUBJECT, SETTINGS_HEADER};

fn grouped(name: &str, values: &[&str]) -> Vec<(String, Vec<String>)> {
    vec![(name.to_string(), values.iter().map(|v| v.to_string()).collect())]
}

fn entry(name: &str, value: &str) -> (String, String) {
    (name.to_string(), value.to_string())
}

#[test]
fn test_settings_new() {
    let mut headers = Vec::new();
    headers.push((
        "x-edgee-component-settings".to_string(),
        vec![r#"{"api_key": "test_value"}"#.to_string()],
    ));

    let settings = Settings::new(&headers).unwrap();
    assert_eq!(settings.api_key, "test_value");
}

#[test]
fn test_settings_new_missing_header() {
    let headers = Vec::new();
    let result = Settings::new(&headers);
    assert!(result.is_err());
    assert_eq!(
        result.unwrap_err().to_string(),
        "Missing 'x-edgee-component-settings' header"
    );
}

#[test]
fn test_settings_new_multiple_headers() {
    let mut headers = Vec::new();
    headers.push((
        "x-edgee-component-settings".to_string(),
        vec![
            r#"{"api_key": "test_value"}"#.to_string(),
            r#"{"api_key": "another_value"}"#.to_string(),
        ],
    ));
    let result = Settings::new(&headers);
    assert!(result.is_err());
    assert!(result
        .unwrap_err()
        .to_string()
        .contains("Expected exactly one 'x-edgee-component-settings' header"));
}

#[test]
fn test_settings_new_invalid_json() {
    let mut headers = Vec::new();
    headers.push((
        "x-edgee-component-settings".to_string(),
        vec!["not a json".to_string()],
    ));
    let result = Settings::new(&headers);
    assert!(result.is_err());
}

#[test]
fn header_name_is_the_documented_one() {
    assert_eq!(SETTINGS_HEADER, "x-edgee-component-settings");
    assert_eq!(DEFAULT_SUBJECT, "Contact request");
}

#[test]
fn new_reports_each_error_variant() {
    assert_eq!(Settings::new(&Vec::new()), Err(ConfigError::Missing));
    assert_eq!(
        Settings::new(&grouped(SETTINGS_HEADER, &["{}", "{}", "{}"])),
        Err(ConfigError::Ambiguous(3))
    );
    assert_eq!(
        Settings::new(&grouped(SETTINGS_HEADER, &["not a json"])),
        Err(ConfigError::Malformed)
    );
}

#[test]
fn new_counts_a_header_without_values_as_missing() {
    assert_eq!(
        Settings::new(&grouped(SETTINGS_HEADER, &[])),
        Err(ConfigError::Missing)
    );
}

#[test]
fn new_ignores_other_headers() {
    let mut headers = grouped("content-type", &["application/json", "text/plain"]);
    headers.push((SETTINGS_HEADER.to_string(), vec![r#"{"api_key":"k"}"#.to_string()]));
    headers.push(("accept".to_string(), vec!["*/*".to_string()]));
    let settings = Settings::new(&headers).unwrap();
    assert_eq!(settings.api_key, "k");
}

#[test]
fn new_adds_up_the_values_of_names_that_differ_in_case() {
    let mut headers = grouped("X-Edgee-Component-Settings", &["{}"]);
    headers.push((SETTINGS_HEADER.to_string(), vec!["{}".to_string()]));
    assert_eq!(Settings::new(&headers), Err(ConfigError::Ambiguous(2)));
}

#[test]
fn from_req_without_the_header_is_missing() {
    assert_eq!(Settings::from_req(&Vec::new()), Err(ConfigError::Missing));
    let req = vec![entry("content-type", "application/json"), entry("x-edgee", "{}")];
    assert_eq!(Settings::from_req(&req), Err(ConfigError::Missing));
}

#[test]
fn from_req_with_a_repeated_header_reports_the_count() {
    let req = vec![
        entry(SETTINGS_HEADER, r#"{"api_key":"a"}"#),
        entry("host", "example.com"),
        entry(SETTINGS_HEADER, r#"{"api_key":"b"}"#),
    ];
    assert_eq!(Settings::from_req(&req), Err(ConfigError::Ambiguous(2)));
    let mut many = Vec::new();
    for _ in 0..12 {
        many.push(entry(SETTINGS_HEADER, "{}"));
    }
    assert_eq!(Settings::from_req(&many), Err(ConfigError::Ambiguous(12)));
}

#[test]
fn from_req_with_a_malformed_value_is_malformed() {
    for value in ["not a json", "", "[]", "\"text\"", r#"{"api_key": 1}"#, r#"{"a": {"b": "c"}}"#, r#"{"api_key": null}"#] {
        let req = vec![entry(SETTINGS_HEADER, value)];
        assert_eq!(Settings::from_req(&req), Err(ConfigError::Malformed), "{}", value);
    }
}

#[test]
fn from_req_finds_the_header_whatever_its_case() {
    for name in ["x-edgee-component-settings", "X-Edgee-Component-Settings", "X-EDGEE-COMPONENT-SETTINGS"] {
        let req = vec![entry(name, r#"{"api_key":"k"}"#)];
        let settings = Settings::from_req(&req).unwrap();
        assert_eq!(settings.api_key, "k");
    }
}

#[test]
fn from_req_ignores_names_that_only_look_alike() {
    for name in ["x-edgee-component-setting", "x-edgee-component-settings ", "x_edgee_component_settings", "x-edgee-component-settingſ"] {
        let req = vec![entry(name, r#"{"api_key":"k"}"#)];
        assert_eq!(Settings::from_req(&req), Err(ConfigError::Missing), "{}", name);
    }
}

#[test]
fn from_json_defaults_every_field() {
    let settings = Settings::from_json("{}").unwrap();
    assert_eq!(settings.api_key, "");
    assert_eq!(settings.email_from, "");
    assert_eq!(settings.subject, "Contact request");
    assert_eq!(settings.template_id, None);
}

#[test]
fn from_json_reads_every_field() {
    let settings = Settings::from_json(
        r#"{"api_key":"k","email_from":"from@example.com","subject":"Hi","template_id":"t1","other":"x"}"#,
    )
    .unwrap();
    assert_eq!(
        settings,
        Settings {
            api_key: "k".to_string(),
            email_from: "from@example.com".to_string(),
            subject: "Hi".to_string(),
            template_id: Some("t1".to_string()),
        }
    );
}

#[test]
fn from_json_keeps_an_empty_template_apart_from_none() {
    let settings = Settings::from_json(r#"{"template_id":""}"#).unwrap();
    assert_eq!(settings.template_id, Some(String::new()));
}

#[test]
fn from_json_takes_the_last_of_a_repeated_key() {
    let settings = Settings::from_json(r#"{"api_key":"a","api_key":"b"}"#).unwrap();
    assert_eq!(settings.api_key, "b");
}

#[test]
fn from_fields_takes_the_first_pair_of_a_key() {
    let fields = vec![
        ("subject".to_string(), "One".to_string()),
        ("api_key".to_string(), "k".to_string()),
        ("subject".to_string(), "Two".to_string()),
    ];
    let settings = Settings::from_fields(&fields);
    assert_eq!(settings.subject, "One");
    assert_eq!(settings.api_key, "k");
    assert_eq!(settings.email_from, "");
    assert_eq!(settings.template_id, None);
}

#[test]
fn config_errors_in_words() {
    assert_eq!(ConfigError::Missing.to_string(), "Missing 'x-edgee-component-settings' header");
    assert_eq!(
        ConfigError::Ambiguous(2).to_string(),
        "Expected exactly one 'x-edgee-component-settings' header, found 2"
    );
    assert_eq!(
        ConfigError::Ambiguous(1203).to_string(),
        "Expected exactly one 'x-edgee-component-settings' header, found 1203"
    );
    assert_eq!(ConfigError::Malformed.to_string(), "Invalid JSON in 'x-edgee-component-settings' header");
}
