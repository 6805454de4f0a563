//! Turns a contact-form request into a SendGrid mail-send payload.

pub mod handler;
pub mod json;
pub mod sendgrid_payload;
pub mod settings;
pub mod submission;
pub mod text;
