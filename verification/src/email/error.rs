//! What can go wrong between the summary and the mail on its way.

use vstd::prelude::*;
use crate::detail::debug_text;

verus! {

/// The reason a text is no template, as `handlebars` reports it.
#[verifier::external_type_specification]
#[verifier::external_body]
pub struct ExTemplateFault(handlebars::TemplateError);

/// The reason a template did not render, as `handlebars` reports it.
#[verifier::external_type_specification]
#[verifier::external_body]
pub struct ExRenderFault(handlebars::RenderError);

/// The reason the relay could not be set up or did not take the message, as
/// `lettre` reports it.
#[verifier::external_type_specification]
#[verifier::external_body]
pub struct ExSmtpFault(lettre::transport::smtp::Error);

/// The reason a message could not be put together, as `lettre` reports it.
#[verifier::external_type_specification]
#[verifier::external_body]
pub struct ExMessageFault(lettre::error::Error);

/// Why no mail went out.
#[derive(Debug)]
#[allow(inconsistent_fields)]
pub enum EmailError {
    /// The template is missing or is no template.
    TemplateError { source: handlebars::TemplateError },
    /// The template did not render with the data it was given.
    TemplateRenderError { source: handlebars::RenderError },
    /// The relay could not be set up, or did not take the message.
    TransportSmtpError { source: lettre::transport::smtp::Error },
    /// The message could not be put together.
    EmailError { source: lettre::error::Error },
}

impl From<handlebars::TemplateError> for EmailError {
    fn from(source: handlebars::TemplateError) -> (error: EmailError) {
        EmailError::TemplateError { source }
    }
}

impl vstd::std_specs::convert::FromSpecImpl<handlebars::TemplateError> for EmailError {
    open spec fn obeys_from_spec() -> bool {
        true
    }

    open spec fn from_spec(source: handlebars::TemplateError) -> EmailError {
        EmailError::TemplateError { source }
    }
}

impl From<handlebars::RenderError> for EmailError {
    fn from(source: handlebars::RenderError) -> (error: EmailError) {
        EmailError::TemplateRenderError { source }
    }
}

impl vstd::std_specs::convert::FromSpecImpl<handlebars::RenderError> for EmailError {
    open spec fn obeys_from_spec() -> bool {
        true
    }

    open spec fn from_spec(source: handlebars::RenderError) -> EmailError {
        EmailError::TemplateRenderError { source }
    }
}

impl From<lettre::transport::smtp::Error> for EmailError {
    fn from(source: lettre::transport::smtp::Error) -> (error: EmailError) {
        EmailError::TransportSmtpError { source }
    }
}

impl vstd::std_specs::convert::FromSpecImpl<lettre::transport::smtp::Error> for EmailError {
    open spec fn obeys_from_spec() -> bool {
        true
    }

    open spec fn from_spec(source: lettre::transport::smtp::Error) -> EmailError {
        EmailError::TransportSmtpError { source }
    }
}

impl From<lettre::error::Error> for EmailError {
    fn from(source: lettre::error::Error) -> (error: EmailError) {
        EmailError::EmailError { source }
    }
}

impl vstd::std_specs::convert::FromSpecImpl<lettre::error::Error> for EmailError {
    open spec fn obeys_from_spec() -> bool {
        true
    }

    open spec fn from_spec(source: lettre::error::Error) -> EmailError {
        EmailError::EmailError { source }
    }
}

/// What precedes the detail in the message of a `TemplateError`.
pub const TEMPLATE_ERROR: &'static str = "Templates error: ";

/// What precedes the detail in the message of a `TemplateRenderError`.
pub const TEMPLATE_RENDER_ERROR: &'static str = "TemplateRender error: ";

/// What precedes the detail in the message of a `TransportSmtpError`.
pub const TRANSPORT_SMTP_ERROR: &'static str = "Transport SMTP error: ";

/// What precedes the detail in the message of an `EmailError`.
pub const EMAIL_ERROR: &'static str = "Email error: ";

impl EmailError {
    /// The error in words: what went wrong, then the detail as the source
    /// of the error writes it.
    pub fn message(&self) -> (text: String)
        ensures
            self is TemplateError ==> TEMPLATE_ERROR@.is_prefix_of(text@),
            self is TemplateRenderError ==> TEMPLATE_RENDER_ERROR@.is_prefix_of(text@),
            self is TransportSmtpError ==> TRANSPORT_SMTP_ERROR@.is_prefix_of(text@),
            self is EmailError ==> EMAIL_ERROR@.is_prefix_of(text@),
    {
        match self {
            EmailError::TemplateError { source } => {
                String::from_str(TEMPLATE_ERROR).concat(debug_text(source).as_str())
            },
            EmailError::TemplateRenderError { source } => {
                String::from_str(TEMPLATE_RENDER_ERROR).concat(debug_text(source).as_str())
            },
            EmailError::TransportSmtpError { source } => {
                String::from_str(TRANSPORT_SMTP_ERROR).concat(debug_text(source).as_str())
            },
            EmailError::EmailError { source } => {
                String::from_str(EMAIL_ERROR).concat(debug_text(source).as_str())
            },
        }
    }
}

} // verus!
