//! The body of a mail-send request to SendGrid, in one of its two shapes.

use vstd::prelude::*;
use vstd::string::StringExecFns;
use crate::settings::{has_template, uses_template};
use crate::text::text_of;

verus! {

/// Where mail-send requests go.
pub const SENDGRID_ENDPOINT: &'static str = "https://api.sendgrid.com/v3/mail/send";

/// The MIME type of a plain message.
pub const PLAIN_TEXT: &'static str = "text/plain";

#[derive(Debug, Clone, PartialEq)]
pub struct SendGridPayloadEmail {
    pub email: String,
}

#[derive(Debug, Clone, PartialEq)]
pub struct SendGridPayloadPersonalizations {
    pub to: Vec<SendGridPayloadEmail>,
    /// Set only without a template.
    pub subject: Option<String>,
    /// Set only with a template.
    pub dynamic_template_data: Option<serde_json::Value>,
}

#[derive(Debug, Clone, PartialEq)]
pub struct SendGridPayloadContent {
    pub _type: String,
    pub value: String,
}

#[derive(Debug, Clone, PartialEq)]
pub struct SendGridPayload {
    pub personalizations: Vec<SendGridPayloadPersonalizations>,
    pub from: SendGridPayloadEmail,
    /// Empty with a template.
    pub content: Vec<SendGridPayloadContent>,
    /// Absent without a template.
    pub template_id: Option<String>,
}

/// What a payload asks SendGrid to send: a plain text under a subject, or a
/// template with the data to fill it.
pub enum PayloadView {
    Static { sender: Seq<char>, recipient: Seq<char>, subject: Seq<char>, message: Seq<char> },
    Template { sender: Seq<char>, recipient: Seq<char>, template_id: Seq<char>, data: Option<serde_json::Value> },
}

/// The payload for a submission: the template shape where a template is
/// configured, the static shape otherwise.
pub open spec fn built(
    sender: Seq<char>,
    recipient: Seq<char>,
    subject: Seq<char>,
    message: Option<Seq<char>>,
    template_id: Option<Seq<char>>,
    data: Option<serde_json::Value>,
) -> PayloadView {
    if has_template(template_id) {
        PayloadView::Template { sender, recipient, template_id: template_id.unwrap(), data }
    } else {
        PayloadView::Static { sender, recipient, subject, message: message.unwrap() }
    }
}

impl SendGridPayload {
    /// The payload names one recipient.
    pub open spec fn addressed(&self) -> bool {
        &&& self.personalizations@.len() == 1
        &&& self.personalizations@[0].to@.len() == 1
    }

    /// The static shape: a subject and one block of plain text, and nothing
    /// of a template.
    pub open spec fn is_static(&self) -> bool {
        &&& self.addressed()
        &&& self.template_id is None
        &&& self.content@.len() == 1
        &&& self.content@[0]._type@ == PLAIN_TEXT@
        &&& self.personalizations@[0].subject is Some
        &&& self.personalizations@[0].dynamic_template_data is None
    }

    /// The template shape: a template identifier that is not empty, and
    /// neither subject nor content.
    pub open spec fn is_template(&self) -> bool {
        &&& self.addressed()
        &&& has_template(text_of(self.template_id))
        &&& self.content@.len() == 0
        &&& self.personalizations@[0].subject is None
    }

    /// The payload has one of the two shapes.
    pub open spec fn wf(&self) -> bool {
        self.is_static() || self.is_template()
    }

    /// Builds the payload for one mail. With a template identifier that is
    /// not empty the template shape is built, and the subject and the
    /// message are left out. Otherwise the static shape is built, which
    /// needs a message.
    pub fn new(
        email_from: String,
        email_to: String,
        subject: String,
        message: Option<String>,
        template_id: Option<String>,
        dynamic_template_data: Option<serde_json::Value>,
    ) -> (payload: SendGridPayload)
        requires
            has_template(text_of(template_id)) || message is Some,
        ensures
            payload.wf(),
            payload@ == built(
                email_from@,
                email_to@,
                subject@,
                text_of(message),
                text_of(template_id),
                dynamic_template_data,
            ),
            has_template(text_of(template_id)) ==> payload.is_template() && payload.content@.len() == 0
                && payload.template_id is Some,
            !has_template(text_of(template_id)) ==> payload.is_static() && payload.content@.len() > 0
                && payload.template_id is None,
    {
        if uses_template(&template_id) {
            SendGridPayload {
                personalizations: vec![
                    SendGridPayloadPersonalizations {
                        to: vec![SendGridPayloadEmail { email: email_to }],
                        subject: None,
                        dynamic_template_data,
                    },
                ],
                from: SendGridPayloadEmail { email: email_from },
                content: vec![],
                template_id,
            }
        } else {
            SendGridPayload {
                personalizations: vec![
                    SendGridPayloadPersonalizations {
                        to: vec![SendGridPayloadEmail { email: email_to }],
                        subject: Some(subject),
                        dynamic_template_data: None,
                    },
                ],
                from: SendGridPayloadEmail { email: email_from },
                content: vec![
                    SendGridPayloadContent { _type: String::from_str(PLAIN_TEXT), value: message.unwrap() },
                ],
                template_id: None,
            }
        }
    }
}

impl View for SendGridPayload {
    type V = PayloadView;

    open spec fn view(&self) -> PayloadView {
        if self.template_id is Some {
            PayloadView::Template {
                sender: self.from.email@,
                recipient: self.personalizations@[0].to@[0].email@,
                template_id: self.template_id.unwrap()@,
                data: self.personalizations@[0].dynamic_template_data,
            }
        } else {
            PayloadView::Static {
                sender: self.from.email@,
                recipient: self.personalizations@[0].to@[0].email@,
                subject: self.personalizations@[0].subject.unwrap()@,
                message: self.content@[0].value@,
            }
        }
    }
}

/// A payload has never both shapes, and a well-formed one has exactly one.
pub proof fn shapes_exclude(payload: SendGridPayload)
    ensures
        !(payload.is_static() && payload.is_template()),
        payload.wf() ==> (payload.is_static() <==> !payload.is_template()),
        payload.wf() ==> (payload.content@.len() > 0 <==> payload.template_id is None),
{
}

} // verus!
