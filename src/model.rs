//! Records, provider errors and the response envelope, with their
//! mathematical models.

use vstd::prelude::*;
use crate::text::{decimal, push_decimal};

verus! {

/// One error entry reported by the provider.
#[derive(Debug)]
pub struct ErrorMessage {
    pub code: u32,
    pub message: String,
}

/// A DNS record as the provider stores it.
#[derive(Debug)]
pub struct DnsRecord {
    pub content: String,
    pub record_type: String,
    pub id: String,
    pub zone_id: String,
}

/// The fields of a record that an update overwrites.
#[derive(Debug)]
pub struct InputDnsRecord {
    pub content: String,
}

/// How a network call failed.
#[derive(Clone, Copy, Debug, PartialEq, Eq, Structural)]
pub enum TransportKind {
    /// No connection could be established (for example, no route for the family).
    ConnectionFailed,
    /// Any other transport failure.
    Other,
}

/// Why a provider operation, or a step of a pass, failed.
#[derive(Debug)]
pub enum Error {
    /// The network call did not complete.
    Request(TransportKind, String),
    /// A response body did not have the expected shape.
    JsonParse(String),
    /// The provider answered with `success: false`; its first error entry.
    Cloudflare(ErrorMessage),
    /// A record whose type is neither `A` nor `AAAA`.
    UnsupportedRecordType(String),
}

/// The wire envelope of a provider response.
pub struct Response<T> {
    pub result: Option<T>,
    pub errors: Vec<ErrorMessage>,
    pub success: bool,
}

/// Model of a record.
pub struct DnsRecordView {
    pub content: Seq<char>,
    pub record_type: Seq<char>,
    pub id: Seq<char>,
    pub zone_id: Seq<char>,
}

/// Model of an error.
pub enum ErrorView {
    Request(TransportKind, Seq<char>),
    JsonParse(Seq<char>),
    Cloudflare(u32, Seq<char>),
    UnsupportedRecordType(Seq<char>),
}

impl View for DnsRecord {
    type V = DnsRecordView;

    open spec fn view(&self) -> DnsRecordView {
        DnsRecordView {
            content: self.content@,
            record_type: self.record_type@,
            id: self.id@,
            zone_id: self.zone_id@,
        }
    }
}

impl View for Error {
    type V = ErrorView;

    open spec fn view(&self) -> ErrorView {
        match self {
            Error::Request(k, d) => ErrorView::Request(*k, d@),
            Error::JsonParse(d) => ErrorView::JsonParse(d@),
            Error::Cloudflare(m) => ErrorView::Cloudflare(m.code, m.message@),
            Error::UnsupportedRecordType(t) => ErrorView::UnsupportedRecordType(t@),
        }
    }
}

/// Model of a result whose payload is a record.
pub open spec fn record_result_view(r: Result<DnsRecord, Error>) -> Result<DnsRecordView, ErrorView> {
    match r {
        Ok(rec) => Ok(rec@),
        Err(e) => Err(e@),
    }
}

/// Model of a result whose payload is a string.
pub open spec fn text_result_view(r: Result<String, Error>) -> Result<Seq<char>, ErrorView> {
    match r {
        Ok(s) => Ok(s@),
        Err(e) => Err(e@),
    }
}

/// The text of a provider error entry.
pub open spec fn error_message_text(code: u32, message: Seq<char>) -> Seq<char> {
    "Cloudflare error "@ + decimal(code as nat) + ": "@ + message
}

/// Detail of an error for an envelope that reports a result-less success.
pub open spec fn missing_result_text() -> Seq<char> {
    "response reports success without a result"@
}

/// Detail of an error for an envelope that reports failure without an entry.
pub open spec fn missing_error_text() -> Seq<char> {
    "response reports failure without an error entry"@
}

impl ErrorMessage {
    /// Human-readable form: `Cloudflare error <code>: <message>`.
    pub fn describe(&self) -> (r: String)
        ensures
            r@ == error_message_text(self.code, self.message@),
    {
        let mut r = String::from_str("Cloudflare error ");
        push_decimal(&mut r, self.code);
        r.append(": ");
        r.append(self.message.as_str());
        r
    }
}

/// The text of an error.
pub open spec fn error_text(e: ErrorView) -> Seq<char> {
    match e {
        ErrorView::Request(_, detail) => "request failed: "@ + detail,
        ErrorView::JsonParse(detail) => "JSON parsing failed: "@ + detail,
        ErrorView::Cloudflare(code, message) => error_message_text(code, message),
        ErrorView::UnsupportedRecordType(t) => "unexpected "@ + t + " record type"@,
    }
}

impl Error {
    /// Human-readable form of the error.
    pub fn describe(&self) -> (r: String)
        ensures
            r@ == error_text(self@),
    {
        match self {
            Error::Request(_, detail) => {
                let mut r = String::from_str("request failed: ");
                r.append(detail.as_str());
                r
            },
            Error::JsonParse(detail) => {
                let mut r = String::from_str("JSON parsing failed: ");
                r.append(detail.as_str());
                r
            },
            Error::Cloudflare(m) => m.describe(),
            Error::UnsupportedRecordType(t) => {
                let mut r = String::from_str("unexpected ");
                r.append(t.as_str());
                r.append(" record type");
                r
            },
        }
    }
}

impl<T> Response<T> {
    /// The payload of a successful envelope, or the error it reports.
    ///
    /// A failed envelope yields its first error entry only; further entries
    /// are not aggregated. An envelope that claims success without a result,
    /// or failure without any entry, does not have the expected shape.
    pub fn into_result(self) -> (r: Result<T, Error>)
        ensures
            self.success && self.result is Some ==> r == Ok::<T, Error>(self.result->0),
            self.success && self.result is None ==> (r matches Err(e) && e@ == ErrorView::JsonParse(missing_result_text())),
            !self.success && self.errors@.len() > 0 ==> (r matches Err(e) && e@ == ErrorView::Cloudflare(
                self.errors@[0].code,
                self.errors@[0].message@,
            )),
            !self.success && self.errors@.len() == 0 ==> (r matches Err(e) && e@ == ErrorView::JsonParse(missing_error_text())),
    {
        if self.success {
            match self.result {
                Some(t) => Ok(t),
                None => Err(Error::JsonParse(String::from_str("response reports success without a result"))),
            }
        } else {
            let mut errors = self.errors;
            if errors.len() > 0 {
                Err(Error::Cloudflare(errors.swap_remove(0)))
            } else {
                Err(Error::JsonParse(String::from_str("response reports failure without an error entry")))
            }
        }
    }
}

} // verus!
