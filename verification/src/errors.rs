//! Errors of the provider and the JSON replies that the HTTP layer sends
//! for them.
use vstd::prelude::*;

use crate::text::{decimal, decimal_string};
use crate::types::{AccountId, ProviderId, ResourceId};

verus! {

/// The standard reason phrase of an HTTP status code, as the `http` crate
/// (re-exported by `axum`) knows it: `None` for a code it has no phrase for.
pub uninterp spec fn http_reason_phrase(code: u16) -> Option<Seq<char>>;

/// Calls `axum::http::StatusCode::from_u16` and then `canonical_reason` on the
/// status it gives. Trusted: the result is the crate's phrase for `code`
/// (named `http_reason_phrase`), and there is none for a code outside
/// `100..=999`, which `from_u16` refuses.
#[verifier::external_body]
fn reason_phrase(code: u16) -> (r: Option<&'static str>)
    ensures
        r matches Some(s) ==> http_reason_phrase(code) == Some(s@),
        r is None ==> http_reason_phrase(code) is None,
        !(100 <= code <= 999) ==> r is None,
{
    match axum::http::StatusCode::from_u16(code) {
        Ok(status) => status.canonical_reason(),
        Err(_) => None,
    }
}

/// How an HTTP status code is written in a message: the number, a space and
/// its reason phrase.
pub open spec fn status_text(code: u16) -> Seq<char> {
    decimal(code as nat) + " "@ + match http_reason_phrase(code) {
        Some(p) => p,
        None => "<unknown status code>"@,
    }
}

/// A status code written as in a message: the number, a space and the
/// reason phrase given, or `<unknown status code>` when there is none.
pub fn status_line(code: u16, reason: Option<&str>) -> (r: String)
    ensures
        r@ == decimal(code as nat) + " "@ + match reason {
            Some(p) => p@,
            None => "<unknown status code>"@,
        },
{
    let mut out = decimal_string(code as u64);
    out.append(" ");
    match reason {
        Some(p) => out.append(p),
        None => out.append("<unknown status code>"),
    }
    out
}

/// Errors while the provider starts: reading its configuration.
#[derive(Debug)]
pub enum ProviderError {
    /// The configuration file could not be read; the text of the I/O error.
    ApplicationConfigFileError(String),
    /// The configuration sources could not be combined or decoded.
    ApplicationConfigError(String),
}

/// Errors of a data source.
#[derive(Debug)]
pub enum SourceError {
    ProviderNotFound(ProviderId),
    AccountNotFound(AccountId),
    ResourceNotFound(ResourceId),
    /// An I/O error, by its text.
    IOError(String),
    /// An error with its own HTTP status code and message.
    GenericError(u16, String),
}

/// Errors of a request to the service.
#[derive(Debug)]
pub enum ServiceError {
    FromSource(SourceError),
    AuthenticationError { error: String },
}

/// The fields of a JSON error reply: the status code, the `message` (`None`:
/// the standard reason phrase of the code) and the `error` field, if any.
pub struct JsonReply {
    pub code: u16,
    pub message: Option<String>,
    pub error: Option<String>,
}

/// A JSON error reply with its texts as character sequences.
pub struct JsonReplyView {
    pub code: u16,
    pub message: Option<Seq<char>>,
    pub error: Option<Seq<char>>,
}

pub open spec fn text_option(t: Option<String>) -> Option<Seq<char>> {
    match t {
        Some(s) => Some(s@),
        None => None,
    }
}

impl View for JsonReply {
    type V = JsonReplyView;

    open spec fn view(&self) -> JsonReplyView {
        JsonReplyView { code: self.code, message: text_option(self.message), error: text_option(self.error) }
    }
}

/// The reply for a source error: the three "not found" errors give 404 with
/// the error's message as `error`, an I/O error gives 500 with the I/O
/// error's own text as `error`, and a generic error gives its own status
/// code with its text as `message`.
pub open spec fn source_error_reply(e: SourceError) -> JsonReplyView {
    match e {
        SourceError::IOError(d) => JsonReplyView { code: 500, message: None, error: Some(d@) },
        SourceError::GenericError(code, d) => JsonReplyView { code, message: Some(d@), error: None },
        _ => JsonReplyView { code: 404, message: None, error: Some(source_error_message(e)) },
    }
}

/// The reply for a service error: a source error is answered as the source
/// error is, an authentication error with 403 and the error text as `error`.
pub open spec fn service_error_reply(e: ServiceError) -> JsonReplyView {
    match e {
        ServiceError::FromSource(s) => source_error_reply(s),
        ServiceError::AuthenticationError { error } =>
            JsonReplyView { code: 403, message: None, error: Some(error@) },
    }
}

pub open spec fn provider_error_message(e: ProviderError) -> Seq<char> {
    match e {
        ProviderError::ApplicationConfigFileError(d) =>
            "TMS Provider was unable to read application config file; details: "@ + d@,
        ProviderError::ApplicationConfigError(d) =>
            "TMS Provider was unable to read configuration sources; details: "@ + d@,
    }
}

pub open spec fn source_error_message(e: SourceError) -> Seq<char> {
    match e {
        SourceError::ProviderNotFound(id) => "Provider not found: "@ + id@,
        SourceError::AccountNotFound(id) => "Account not found: "@ + id@,
        SourceError::ResourceNotFound(id) => "Resource not found: "@ + id@,
        SourceError::IOError(d) => "I/O Error: "@ + d@,
        SourceError::GenericError(code, d) => "Generic error: "@ + status_text(code),
    }
}

pub open spec fn service_error_message(e: ServiceError) -> Seq<char> {
    match e {
        ServiceError::FromSource(s) => "Data source error: "@ + source_error_message(s),
        ServiceError::AuthenticationError { error } => "Authentication error: "@ + error@,
    }
}

fn text_after(prefix: &str, rest: &str) -> (r: String)
    ensures
        r@ == prefix@ + rest@,
{
    let mut out = String::from_str(prefix);
    out.append(rest);
    out
}

impl ProviderError {
    /// The error's message.
    pub fn message(&self) -> (r: String)
        ensures
            r@ == provider_error_message(*self),
    {
        match self {
            ProviderError::ApplicationConfigFileError(d) => {
                text_after("TMS Provider was unable to read application config file; details: ", d.as_str())
            },
            ProviderError::ApplicationConfigError(d) => {
                text_after("TMS Provider was unable to read configuration sources; details: ", d.as_str())
            },
        }
    }
}

impl SourceError {
    /// The error's message.
    pub fn message(&self) -> (r: String)
        ensures
            r@ == source_error_message(*self),
    {
        match self {
            SourceError::ProviderNotFound(id) => text_after("Provider not found: ", id.as_str()),
            SourceError::AccountNotFound(id) => text_after("Account not found: ", id.as_str()),
            SourceError::ResourceNotFound(id) => text_after("Resource not found: ", id.as_str()),
            SourceError::IOError(d) => text_after("I/O Error: ", d.as_str()),
            SourceError::GenericError(code, _) => {
                let line = status_line(*code, reason_phrase(*code));
                text_after("Generic error: ", line.as_str())
            },
        }
    }

    /// The JSON reply sent for this error (see `source_error_reply`).
    pub fn reply(self) -> (r: JsonReply)
        ensures
            r@ == source_error_reply(self),
    {
        match self {
            SourceError::IOError(d) => JsonReply { code: 500, message: None, error: Some(d) },
            SourceError::GenericError(code, d) => JsonReply { code, message: Some(d), error: None },
            _ => {
                let m = self.message();
                JsonReply { code: 404, message: None, error: Some(m) }
            },
        }
    }
}

impl ServiceError {
    /// The error's message.
    pub fn message(&self) -> (r: String)
        ensures
            r@ == service_error_message(*self),
    {
        match self {
            ServiceError::FromSource(s) => {
                let m = s.message();
                text_after("Data source error: ", m.as_str())
            },
            ServiceError::AuthenticationError { error } =>
                text_after("Authentication error: ", error.as_str()),
        }
    }

    /// The JSON reply sent for this error (see `service_error_reply`).
    pub fn reply(self) -> (r: JsonReply)
        ensures
            r@ == service_error_reply(self),
    {
        match self {
            ServiceError::FromSource(s) => s.reply(),
            ServiceError::AuthenticationError { error } =>
                JsonReply { code: 403, message: None, error: Some(error) },
        }
    }
}

/// A service error that wraps a source error is answered exactly as that
/// source error is.
pub proof fn law_source_errors_answered_unchanged(e: SourceError)
    ensures
        service_error_reply(ServiceError::FromSource(e)) == source_error_reply(e),
{
}

/// The three "not found" errors are answered with 404, no message of their
/// own, and their message as the error.
pub proof fn law_not_found_replies(e: SourceError)
    ensures
        (e is ProviderNotFound || e is AccountNotFound || e is ResourceNotFound) ==> {
            &&& source_error_reply(e).code == 404
            &&& source_error_reply(e).message is None
            &&& source_error_reply(e).error == Some(source_error_message(e))
        },
{
}

/// A generic error is answered with its own status code, unchanged, with its
/// text as the message and no error.
pub proof fn law_generic_error_keeps_its_code(code: u16, text: String)
    ensures
        source_error_reply(SourceError::GenericError(code, text)).code == code,
        source_error_reply(SourceError::GenericError(code, text)).message == Some(text@),
        source_error_reply(SourceError::GenericError(code, text)).error is None,
{
}

/// An I/O error is answered with 500 and its own text as the error.
pub proof fn law_io_error_reply(text: String)
    ensures
        source_error_reply(SourceError::IOError(text)).code == 500,
        source_error_reply(SourceError::IOError(text)).message is None,
        source_error_reply(SourceError::IOError(text)).error == Some(text@),
{
}

/// An authentication error is answered with 403 and its text as the error.
pub proof fn law_authentication_reply(text: String)
    ensures
        service_error_reply(ServiceError::AuthenticationError { error: text }).code == 403,
        service_error_reply(ServiceError::AuthenticationError { error: text }).message is None,
        service_error_reply(ServiceError::AuthenticationError { error: text }).error == Some(text@),
{
}

} // verus!
