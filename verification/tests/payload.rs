use sendgrid_contact::sendgrid_payload::{
    SendGridPayload, SendGridPayloadContent, SendGridPayloadEmail, SendGridPayloadPersonalizations,
    PLAIN_TEXT, SENDGRID_ENDPOINT,
};

fn json(text: &str) -> serde_json::Value {
    serde_json::from_str(text).unwrap()
}

#[test]
fn test_build_sendgrid_payload_with_template() {
    let email_from = "from@example.com".to_string();
    let email_to = "to@example.com".to_string();
    let subject = "Ignored Subject".to_string();
    let message = None;
    let template_id = Some("template-123".to_string());
    let dynamic_template_data = Some(json(r#"{"name": "John"}"#));

    let payload = SendGridPayload::new(
        email_from.clone(),
        email_to.clone(),
        subject,
        message,
        template_id.clone(),
        dynamic_template_data.clone(),
    );

    assert_eq!(payload.from.email, email_from);
    assert_eq!(payload.personalizations.len(), 1);
    assert_eq!(payload.personalizations[0].to[0].email, email_to);
    assert!(payload.personalizations[0].subject.is_none());
    assert_eq!(
        payload.personalizations[0].dynamic_template_data,
        dynamic_template_data
    );
    assert_eq!(payload.content.len(), 0);
    assert_eq!(payload.template_id, template_id);
    assert_eq!(
        payload.personalizations[0].dynamic_template_data,
        dynamic_template_data
    );
}

#[test]
fn test_build_sendgrid_payload_with_static_content() {
    let email_from = "from@example.com".to_string();
    let email_to = "to@example.com".to_string();
    let subject = "Hello".to_string();
    let message = Some("This is a test message.".to_string());
    let template_id = None;
    let dynamic_template_data = None;

    let payload = SendGridPayload::new(
        email_from.clone(),
        email_to.clone(),
        subject.clone(),
        message.clone(),
        template_id,
        dynamic_template_data,
    );

    assert_eq!(payload.from.email, email_from);
    assert_eq!(payload.personalizations.len(), 1);
    assert_eq!(payload.personalizations[0].to[0].email, email_to);
    assert_eq!(payload.personalizations[0].subject, Some(subject));
    assert!(payload.personalizations[0].dynamic_template_data.is_none());
    assert_eq!(payload.content.len(), 1);
    assert_eq!(payload.content[0]._type, "text/plain");
    assert_eq!(payload.content[0].value, message.unwrap());
    assert!(payload.template_id.is_none());
}

#[test]
fn constants_of_the_provider() {
    assert_eq!(SENDGRID_ENDPOINT, "https://api.sendgrid.com/v3/mail/send");
    assert_eq!(PLAIN_TEXT, "text/plain");
}

#[test]
fn empty_template_identifier_builds_the_static_shape() {
    let payload = SendGridPayload::new(
        "f".to_string(),
        "t".to_string(),
        "s".to_string(),
        Some("m".to_string()),
        Some(String::new()),
        Some(json("{\"ignored\": true}")),
    );
    assert_eq!(
        payload,
        SendGridPayload {
            personalizations: vec![SendGridPayloadPersonalizations {
                to: vec![SendGridPayloadEmail { email: "t".to_string() }],
                subject: Some("s".to_string()),
                dynamic_template_data: None,
            }],
            from: SendGridPayloadEmail { email: "f".to_string() },
            content: vec![SendGridPayloadContent { _type: "text/plain".to_string(), value: "m".to_string() }],
            template_id: None,
        }
    );
}

#[test]
fn template_shape_leaves_message_and_subject_out() {
    let payload = SendGridPayload::new(
        "f".to_string(),
        "t".to_string(),
        "s".to_string(),
        Some("m".to_string()),
        Some("t1".to_string()),
        None,
    );
    assert_eq!(
        payload,
        SendGridPayload {
            personalizations: vec![SendGridPayloadPersonalizations {
                to: vec![SendGridPayloadEmail { email: "t".to_string() }],
                subject: None,
                dynamic_template_data: None,
            }],
            from: SendGridPayloadEmail { email: "f".to_string() },
            content: vec![],
            template_id: Some("t1".to_string()),
        }
    );
}

#[test]
fn payload_has_content_or_template_and_never_both() {
    let ids = [None, Some(String::new()), Some("t1".to_string())];
    let data = [None, Some(json("{}"))];
    for id in ids.iter() {
        for d in data.iter() {
            let payload = SendGridPayload::new(
                "f".to_string(),
                "t".to_string(),
                "s".to_string(),
                Some("m".to_string()),
                id.clone(),
                d.clone(),
            );
            assert_ne!(payload.content.is_empty(), payload.template_id.is_none());
            assert_eq!(payload.template_id.is_some(), id.as_deref().is_some_and(|t| !t.is_empty()));
        }
    }
}
