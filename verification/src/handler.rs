//! One request from its headers and body to the mail that goes out, or to
//! the reply that turns the request down.

use vstd::prelude::*;
use vstd::string::StringExecFns;
use crate::json::{json_document, parse_document};
use crate::sendgrid_payload::{built, PayloadView, SendGridPayload};
use crate::settings::{entry_values, has_template, resolution, ConfigError, Settings, SettingsView};
use crate::submission::{extraction, Submission, ValidationError};

verus! {

/// Why a request gets no mail sent.
#[derive(Debug, Clone, PartialEq)]
pub enum Failure {
    /// No settings could be resolved from the headers.
    Config(ConfigError),
    /// The body could not be read; the text says why.
    Body(String),
    /// The body is no JSON.
    Parse,
    /// The body lacks a field.
    Validation(ValidationError),
}

/// The mail to send, and the key to send it with.
#[derive(Debug, Clone, PartialEq)]
pub struct Outbound {
    pub payload: SendGridPayload,
    pub api_key: String,
}

/// An outbound mail as mathematical values.
pub struct OutboundView {
    pub payload: PayloadView,
    pub api_key: Seq<char>,
}

impl View for Outbound {
    type V = OutboundView;

    open spec fn view(&self) -> OutboundView {
        OutboundView { payload: self.payload@, api_key: self.api_key@ }
    }
}

/// The mail that a body asks for under given settings, or the first
/// requirement that the body fails.
pub open spec fn planned(settings: SettingsView, body: serde_json::Value) -> Result<OutboundView, ValidationError> {
    match extraction(body, has_template(settings.template_id)) {
        Ok(submission) => Ok(
            OutboundView {
                payload: built(
                    settings.email_from,
                    submission.recipient_address,
                    settings.subject,
                    submission.message,
                    settings.template_id,
                    submission.template_data,
                ),
                api_key: settings.api_key,
            },
        ),
        Err(e) => Err(e),
    }
}

/// What becomes of a request: the settings are resolved first, then the
/// body is read, parsed and validated, and the first step that fails
/// decides.
pub open spec fn outcome(req: Seq<(String, String)>, body: Result<Vec<u8>, String>) -> Result<OutboundView, Failure> {
    match resolution(entry_values(req)) {
        Err(e) => Err(Failure::Config(e)),
        Ok(settings) => match body {
            Err(why) => Err(Failure::Body(why)),
            Ok(bytes) => match json_document(bytes@) {
                None => Err(Failure::Parse),
                Some(value) => match planned(settings, value) {
                    Ok(outbound) => Ok(outbound),
                    Err(e) => Err(Failure::Validation(e)),
                },
            },
        },
    }
}

impl Failure {
    /// The status code of the reply.
    pub open spec fn spec_status(self) -> u16 {
        match self {
            Failure::Config(_) => 500,
            _ => 400,
        }
    }

    /// The status code of the reply: 500 where the settings are at fault,
    /// 400 where the request is.
    pub fn status(&self) -> (r: u16)
        ensures
            r == self.spec_status(),
    {
        match self {
            Failure::Config(_) => 500,
            _ => 400,
        }
    }

    /// The message of the reply. A failure of the settings is not told in
    /// detail.
    pub fn message(&self) -> (r: String)
        ensures
            r@ == match *self {
                Failure::Config(_) => "Failed to parse component settings, missing SendGrid API key"@,
                Failure::Body(why) => why@,
                Failure::Parse => "Invalid JSON in request body"@,
                Failure::Validation(ValidationError::MissingField(field)) => "Missing '"@ + field.key()
                    + "' field in request body"@,
            },
    {
        match self {
            Failure::Config(_) => String::from_str("Failed to parse component settings, missing SendGrid API key"),
            Failure::Body(why) => why.clone(),
            Failure::Parse => String::from_str("Invalid JSON in request body"),
            Failure::Validation(e) => e.to_string(),
        }
    }
}

/// The value of the `Authorization` header that carries an API key.
pub fn bearer(api_key: &str) -> (r: String)
    ensures
        r@ == "Bearer "@ + api_key@,
{
    String::from_str("Bearer ").concat(api_key)
}

/// Validates a parsed body under resolved settings and builds the mail.
pub fn prepare(settings: Settings, body_json: &serde_json::Value) -> (r: Result<Outbound, ValidationError>)
    ensures
        match r {
            Ok(outbound) => outbound.payload.wf() && planned(settings@, *body_json) == Ok::<
                OutboundView,
                ValidationError,
            >(outbound@),
            Err(e) => planned(settings@, *body_json) == Err::<OutboundView, ValidationError>(e),
        },
{
    match Submission::extract(body_json, &settings.template_id) {
        Ok(submission) => {
            let payload = SendGridPayload::new(
                settings.email_from,
                submission.recipient_address,
                settings.subject,
                submission.message,
                settings.template_id,
                submission.template_data,
            );
            Ok(Outbound { payload, api_key: settings.api_key })
        },
        Err(e) => Err(e),
    }
}

/// Handles one request, given its headers and what reading its body gave.
/// Nothing is built unless every step succeeds.
pub fn handle(req: &Vec<(String, String)>, body: Result<Vec<u8>, String>) -> (r: Result<Outbound, Failure>)
    ensures
        match r {
            Ok(outbound) => outbound.payload.wf() && outcome(req@, body) == Ok::<OutboundView, Failure>(outbound@),
            Err(e) => outcome(req@, body) == Err::<OutboundView, Failure>(e),
        },
{
    let settings = match Settings::from_req(req) {
        Ok(settings) => settings,
        Err(e) => {
            return Err(Failure::Config(e));
        },
    };
    let bytes = match body {
        Ok(bytes) => bytes,
        Err(why) => {
            return Err(Failure::Body(why));
        },
    };
    let body_json = match parse_document(bytes.as_slice()) {
        Ok(value) => value,
        Err(_) => {
            return Err(Failure::Parse);
        },
    };
    match prepare(settings, &body_json) {
        Ok(outbound) => Ok(outbound),
        Err(e) => Err(Failure::Validation(e)),
    }
}

} // verus!
