//! What a contact form submitted, read from the request body.
//!
//! A body is read in one of two modes. Without a template the message is
//! required; with one, the template's data is. The recipient is required in
//! both.

use vstd::prelude::*;
use vstd::string::StringExecFns;
use crate::json::{duplicate, json_member, json_text, member, text};
use crate::settings::{has_template, uses_template};
use crate::text::text_of;

verus! {

/// A field of the request body.
#[derive(Debug, Clone, Copy, PartialEq, Eq)]
pub enum Field {
    Message,
    Data,
    Email,
}

/// Why a request body was turned down.
#[derive(Debug, Clone, Copy, PartialEq, Eq)]
pub enum ValidationError {
    /// The body lacks a field that its mode requires.
    MissingField(Field),
}

#[derive(Debug, Clone, PartialEq)]
pub struct Submission {
    pub message: Option<String>,
    pub template_data: Option<serde_json::Value>,
    pub recipient_address: String,
}

/// A submission as mathematical values.
pub struct SubmissionView {
    pub message: Option<Seq<char>>,
    pub template_data: Option<serde_json::Value>,
    pub recipient_address: Seq<char>,
}

impl View for Submission {
    type V = SubmissionView;

    open spec fn view(&self) -> SubmissionView {
        SubmissionView {
            message: text_of(self.message),
            template_data: self.template_data,
            recipient_address: self.recipient_address@,
        }
    }
}

/// The text of a member, with the empty text for a member that is no string.
pub open spec fn member_text(value: serde_json::Value) -> Seq<char> {
    match json_text(value) {
        Some(s) => s,
        None => Seq::empty(),
    }
}

/// The text of the member under a key, where the body has one.
pub open spec fn text_member(body: serde_json::Value, key: Seq<char>) -> Option<Seq<char>> {
    match json_member(body, key) {
        Some(v) => Some(member_text(v)),
        None => None,
    }
}

/// The message to take from what the body holds under `message`: absent
/// only with a template, an error without.
pub open spec fn required_message(found: Option<Seq<char>>, templated: bool) -> Result<Option<Seq<char>>, ValidationError> {
    match found {
        Some(m) => Ok(Some(m)),
        None => if templated {
            Ok(None)
        } else {
            Err(ValidationError::MissingField(Field::Message))
        },
    }
}

/// The template data to take from what the body holds under `data`: absent
/// only without a template, an error with one.
pub open spec fn required_data(found: Option<serde_json::Value>, templated: bool) -> Result<Option<serde_json::Value>, ValidationError> {
    match found {
        Some(d) => Ok(Some(d)),
        None => if templated {
            Err(ValidationError::MissingField(Field::Data))
        } else {
            Ok(None)
        },
    }
}

/// The recipient to take from what the body holds under `email`.
pub open spec fn required_email(found: Option<Seq<char>>) -> Result<Seq<char>, ValidationError> {
    match found {
        Some(a) => Ok(a),
        None => Err(ValidationError::MissingField(Field::Email)),
    }
}

/// The submission that the three members of a body make, or the first
/// requirement that they fail: the message is looked at first, then the
/// data, then the recipient.
pub open spec fn assembled(
    message: Option<Seq<char>>,
    data: Option<serde_json::Value>,
    email: Option<Seq<char>>,
    templated: bool,
) -> Result<SubmissionView, ValidationError> {
    match required_message(message, templated) {
        Err(e) => Err(e),
        Ok(m) => match required_data(data, templated) {
            Err(e) => Err(e),
            Ok(d) => match required_email(email) {
                Err(e) => Err(e),
                Ok(a) => Ok(SubmissionView { message: m, template_data: d, recipient_address: a }),
            },
        },
    }
}

/// The submission that a body holds, or the first requirement that it fails.
pub open spec fn extraction(body: serde_json::Value, templated: bool) -> Result<SubmissionView, ValidationError> {
    assembled(text_member(body, "message"@), json_member(body, "data"@), text_member(body, "email"@), templated)
}

impl Field {
    /// The key under which the body holds the field.
    pub open spec fn key(self) -> Seq<char> {
        match self {
            Field::Message => "message"@,
            Field::Data => "data"@,
            Field::Email => "email"@,
        }
    }

    pub fn name(&self) -> (r: &'static str)
        ensures
            r@ == self.key(),
    {
        match self {
            Field::Message => "message",
            Field::Data => "data",
            Field::Email => "email",
        }
    }
}

impl ValidationError {
    /// The error in words, naming the field.
    pub fn to_string(&self) -> (r: String)
        ensures
            r@ == match *self {
                ValidationError::MissingField(field) => "Missing '"@ + field.key() + "' field in request body"@,
            },
    {
        match self {
            ValidationError::MissingField(field) => String::from_str("Missing '").concat(field.name()).concat(
                "' field in request body",
            ),
        }
    }
}

/// A member read as text: the string itself, or the empty text where the
/// member is anything but a string.
pub fn member_string(value: &serde_json::Value) -> (r: String)
    ensures
        r@ == member_text(*value),
{
    match text(value) {
        Some(s) => s.to_owned(),
        None => String::new(),
    }
}

/// The text of the member under a key, where the body has one.
pub fn read_text(body_json: &serde_json::Value, key: &str) -> (r: Option<String>)
    ensures
        text_of(r) == text_member(*body_json, key@),
{
    match member(body_json, key) {
        Some(value) => Some(member_string(value)),
        None => None,
    }
}

/// Decides on the message, given what the body holds under `message`.
pub fn require_message(found: Option<String>, template_id: &Option<String>) -> (r: Result<Option<String>, ValidationError>)
    ensures
        r == match found {
            Some(m) => Ok::<Option<String>, ValidationError>(Some(m)),
            None => if has_template(text_of(*template_id)) {
                Ok(None)
            } else {
                Err(ValidationError::MissingField(Field::Message))
            },
        },
{
    match found {
        Some(m) => Ok(Some(m)),
        None => if uses_template(template_id) {
            Ok(None)
        } else {
            Err(ValidationError::MissingField(Field::Message))
        },
    }
}

/// Decides on the template data, given what the body holds under `data`.
pub fn require_data(found: Option<serde_json::Value>, template_id: &Option<String>) -> (r: Result<
    Option<serde_json::Value>,
    ValidationError,
>)
    ensures
        r == required_data(found, has_template(text_of(*template_id))),
{
    match found {
        Some(d) => Ok(Some(d)),
        None => if uses_template(template_id) {
            Err(ValidationError::MissingField(Field::Data))
        } else {
            Ok(None)
        },
    }
}

/// Decides on the recipient, given what the body holds under `email`.
pub fn require_email(found: Option<String>) -> (r: Result<String, ValidationError>)
    ensures
        r == match found {
            Some(a) => Ok::<String, ValidationError>(a),
            None => Err(ValidationError::MissingField(Field::Email)),
        },
{
    match found {
        Some(a) => Ok(a),
        None => Err(ValidationError::MissingField(Field::Email)),
    }
}

/// Reads the message from the body. A message that is no string counts as
/// the empty text. Without a message the result depends on the mode: none
/// is needed with a template, and one is missing without.
pub fn extract_message(body_json: &serde_json::Value, template_id: &Option<String>) -> (r: Result<
    Option<String>,
    ValidationError,
>)
    ensures
        match r {
            Ok(m) => Ok::<Option<Seq<char>>, ValidationError>(text_of(m)) == required_message(
                text_member(*body_json, "message"@),
                has_template(text_of(*template_id)),
            ),
            Err(e) => Err::<Option<Seq<char>>, ValidationError>(e) == required_message(
                text_member(*body_json, "message"@),
                has_template(text_of(*template_id)),
            ),
        },
        json_member(*body_json, "message"@) is None && !has_template(text_of(*template_id)) ==> r == Err::<
            Option<String>,
            ValidationError,
        >(ValidationError::MissingField(Field::Message)),
        json_member(*body_json, "message"@) is None && has_template(text_of(*template_id)) ==> r == Ok::<
            Option<String>,
            ValidationError,
        >(None),
{
    require_message(read_text(body_json, "message"), template_id)
}

/// Reads the template data from the body, as it stands there. Without data
/// the result depends on the mode: none is needed without a template, and
/// it is missing with one.
pub fn extract_template_data(body_json: &serde_json::Value, template_id: &Option<String>) -> (r: Result<
    Option<serde_json::Value>,
    ValidationError,
>)
    ensures
        r == required_data(json_member(*body_json, "data"@), has_template(text_of(*template_id))),
        json_member(*body_json, "data"@) is None && has_template(text_of(*template_id)) ==> r == Err::<
            Option<serde_json::Value>,
            ValidationError,
        >(ValidationError::MissingField(Field::Data)),
        json_member(*body_json, "data"@) is None && !has_template(text_of(*template_id)) ==> r == Ok::<
            Option<serde_json::Value>,
            ValidationError,
        >(None),
{
    let found = match member(body_json, "data") {
        Some(value) => Some(duplicate(value)),
        None => None,
    };
    require_data(found, template_id)
}

/// Reads the recipient's address from the body. An address that is no
/// string counts as the empty text; a body without one is turned down.
pub fn extract_email(body_json: &serde_json::Value) -> (r: Result<String, ValidationError>)
    ensures
        match r {
            Ok(a) => Ok::<Seq<char>, ValidationError>(a@) == required_email(text_member(*body_json, "email"@)),
            Err(e) => Err::<Seq<char>, ValidationError>(e) == required_email(text_member(*body_json, "email"@)),
        },
{
    require_email(read_text(body_json, "email"))
}

impl Submission {
    /// Reads a submission from the body, in the mode that the template
    /// identifier sets. The message is checked first, then the data, then
    /// the recipient, and the first that is missing decides the error.
    pub fn extract(body_json: &serde_json::Value, template_id: &Option<String>) -> (r: Result<
        Submission,
        ValidationError,
    >)
        ensures
            match r {
                Ok(submission) => extraction(*body_json, has_template(text_of(*template_id))) == Ok::<
                    SubmissionView,
                    ValidationError,
                >(submission@),
                Err(e) => extraction(*body_json, has_template(text_of(*template_id))) == Err::<
                    SubmissionView,
                    ValidationError,
                >(e),
            },
            json_member(*body_json, "email"@) is None ==> r is Err,
    {
        let message = match extract_message(body_json, template_id) {
            Ok(m) => m,
            Err(e) => {
                return Err(e);
            },
        };
        let template_data = match extract_template_data(body_json, template_id) {
            Ok(d) => d,
            Err(e) => {
                return Err(e);
            },
        };
        let recipient_address = match extract_email(body_json) {
            Ok(a) => a,
            Err(e) => {
                return Err(e);
            },
        };
        Ok(Submission { message, template_data, recipient_address })
    }
}

} // verus!
