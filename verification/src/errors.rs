//! The error taxonomy: one tagged value for every way a resolution can fail,
//! from address construction through transport, document parsing and field
//! binding.

use vstd::prelude::*;

verus! {

/// Spec-level shape of [`Error`]: the same variants with texts as character
/// sequences and payloads as byte sequences.
pub enum ErrorV {
    /// The response had a client-error status (the 400 range).
    ClientError { status: u16, body_excerpt: Seq<u8> },
    /// The response had a server-error status.
    ServerError { status: u16, body_excerpt: Seq<u8> },
    /// The fetched bytes are not a well-formed document.
    TomlParseError(Seq<char>),
    /// The transport failed before a usable response arrived.
    HyperError(Seq<char>),
    /// A domain or address cannot form a valid network address.
    InvalidUri(Seq<char>),
    /// A present field's value could not be coerced to its declared type.
    FieldDecodingError { path: Seq<char> },
}

/// One tagged failure from address construction, transport, document parsing
/// or field binding. Error values carry a minimal reportable summary, never a
/// whole response: the status code and a bounded excerpt of the body.
#[derive(Debug, Clone)]
pub enum Error {
    /// The client sent a bad request: a response in the 400 range.
    ClientError { status: u16, body_excerpt: Vec<u8> },
    /// The server failed to answer: any response that is neither a success
    /// nor a client error.
    ServerError { status: u16, body_excerpt: Vec<u8> },
    /// The body was not a valid document, with the parser's message.
    TomlParseError(String),
    /// The transport failed, with the transport's message.
    HyperError(String),
    /// Invalid address format, carrying the offending text.
    InvalidUri(String),
    /// A field's value could not be coerced, naming the offending field path.
    FieldDecodingError { path: String },
}

impl DeepView for Error {
    type V = ErrorV;

    open spec fn deep_view(&self) -> ErrorV {
        match self {
            Error::ClientError { status, body_excerpt } => ErrorV::ClientError {
                status: *status,
                body_excerpt: body_excerpt@,
            },
            Error::ServerError { status, body_excerpt } => ErrorV::ServerError {
                status: *status,
                body_excerpt: body_excerpt@,
            },
            Error::TomlParseError(m) => ErrorV::TomlParseError(m@),
            Error::HyperError(m) => ErrorV::HyperError(m@),
            Error::InvalidUri(m) => ErrorV::InvalidUri(m@),
            Error::FieldDecodingError { path } => ErrorV::FieldDecodingError { path: path@ },
        }
    }
}

/// The reportable one-line description of each failure kind.
pub open spec fn spec_message(e: ErrorV) -> Seq<char> {
    match e {
        ErrorV::ClientError { .. } => "client response error"@,
        ErrorV::ServerError { .. } => "server response error"@,
        ErrorV::TomlParseError(_) => "toml parse error"@,
        ErrorV::HyperError(_) => "hyper error"@,
        ErrorV::InvalidUri(_) => "invalid uri"@,
        ErrorV::FieldDecodingError { .. } => "field decoding error"@,
    }
}

impl Error {
    /// A short description of the failure kind.
    pub fn message(&self) -> (r: &'static str)
        ensures
            r@ == spec_message(self.deep_view()),
    {
        match self {
            Error::ClientError { .. } => "client response error",
            Error::ServerError { .. } => "server response error",
            Error::TomlParseError(_) => "toml parse error",
            Error::HyperError(_) => "hyper error",
            Error::InvalidUri(_) => "invalid uri",
            Error::FieldDecodingError { .. } => "field decoding error",
        }
    }
}

} // verus!
