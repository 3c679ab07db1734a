//! The resolution orchestrator below the transport: building the well-known
//! address for a domain, classifying a fetch outcome, and turning a fetched
//! body into a bound manifest through the external document parser.

use vstd::prelude::*;
use vstd::string::StringExecFns;

use crate::coerce::{NetAddress, RichValue, uri_canon, uri_ok};
use crate::errors::{Error, ErrorV};
use crate::schema::{
    StellarToml, StellarTomlV, bind_stellar_toml, spec_stellar_toml_err, spec_stellar_toml_ok,
    spec_stellar_toml_val,
};
use crate::tree::DocValue;
use crate::{spec_well_known_path, well_known_path};

verus! {

#[verifier::external_type_specification]
#[verifier::external_body]
pub struct ExTomlValue(toml::Value);

/// Whether the bytes are the text of a well-formed document: a top-level
/// table in the source text format.
pub uninterp spec fn toml_parses(b: Seq<u8>) -> bool;

/// The decoded document table of well-formed bytes `b`: the tree the
/// external parser yields for them, converted value for value.
pub uninterp spec fn toml_doc(b: Seq<u8>) -> Seq<(String, DocValue)>;

/// Relies on toml::Value: converts one parsed value into the library's
/// document value, variant for variant; the value kinds no schema field
/// accepts (dates, fractional numbers) come out as `Other`.
#[verifier::external_body]
fn doc_of_value(v: toml::Value) -> DocValue {
    match v {
        toml::Value::String(s) => DocValue::Text(s),
        toml::Value::Integer(i) => DocValue::Integer(i),
        toml::Value::Boolean(b) => DocValue::Boolean(b),
        toml::Value::Array(a) => DocValue::Array(a.into_iter().map(doc_of_value).collect()),
        toml::Value::Table(p) => {
            DocValue::Table(p.into_iter().map(|(k, w)| (k, doc_of_value(w))).collect())
        },
        _ => DocValue::Other,
    }
}

/// Relies on toml::from_slice: it accepts exactly the texts of well-formed
/// documents and yields a tree that depends on the input bytes alone,
/// reporting a message otherwise; the body converts the tree pair for pair.
#[verifier::external_body]
fn parse_table(bytes: &[u8]) -> (r: Result<Vec<(String, DocValue)>, String>)
    ensures
        r is Ok <==> toml_parses(bytes@),
        r is Ok ==> r.unwrap()@ == toml_doc(bytes@),
{
    match toml::from_slice::<toml::value::Table>(bytes) {
        Ok(table) => Ok(table.into_iter().map(|(k, v)| (k, doc_of_value(v))).collect()),
        Err(e) => Err(format!("{}", e)),
    }
}

/// Parses fetched bytes into the decoded document table: the external parse,
/// then the conversion into the library's document values.
pub fn parse_document(bytes: &[u8]) -> (r: Result<Vec<(String, DocValue)>, Error>)
    ensures
        r is Ok <==> toml_parses(bytes@),
        r is Ok ==> r.unwrap()@ == toml_doc(bytes@),
        r is Err ==> r->Err_0 is TomlParseError,
{
    match parse_table(bytes) {
        Ok(doc) => Ok(doc),
        Err(m) => Err(Error::TomlParseError(m)),
    }
}

/// The view of a binding outcome: the bound manifest or the error, over views.
pub open spec fn result_view(r: Result<StellarToml, Error>) -> Result<StellarTomlV, ErrorV> {
    match r {
        Ok(m) => Ok(m.deep_view()),
        Err(e) => Err(e.deep_view()),
    }
}

/// What the document pipeline promises of its outcome `r` for body `b`:
/// bytes that do not parse are a parse error; bytes whose decoded document
/// binds cleanly are owed exactly its bound manifest; and a document with a
/// malformed field is owed the error of its first offending field.
pub open spec fn spec_parse_outcome(b: Seq<u8>, r: Result<StellarTomlV, ErrorV>) -> bool {
    if !toml_parses(b) {
        r is Err && r->Err_0 is TomlParseError
    } else {
        let d = toml_doc(b);
        if spec_stellar_toml_ok(d) {
            r is Ok && r->Ok_0 == spec_stellar_toml_val(d)
        } else {
            r is Err && spec_stellar_toml_err(d, r->Err_0)
        }
    }
}

/// Parses fetched bytes and binds the decoded document onto the schema: the
/// whole deserialization pipeline below the transport.
pub fn parse_stellar_toml(bytes: &[u8]) -> (r: Result<StellarToml, Error>)
    ensures
        spec_parse_outcome(bytes@, result_view(r)),
{
    match parse_document(bytes) {
        Ok(doc) => bind_stellar_toml(&doc),
        Err(e) => Err(e),
    }
}

/// A success status: the 200 range.
pub open spec fn is_success_status(s: u16) -> bool {
    200 <= s < 300
}

/// A client-error status: the 400 range.
pub open spec fn is_client_error_status(s: u16) -> bool {
    400 <= s < 500
}

/// The bounded excerpt of a response body that error values carry.
pub open spec fn excerpt_of(b: Seq<u8>) -> Seq<u8> {
    if b.len() <= 256 {
        b
    } else {
        b.take(256)
    }
}

fn body_excerpt(body: &[u8]) -> (r: Vec<u8>)
    ensures
        r@ == excerpt_of(body@),
{
    let n: usize = if body.len() <= 256 {
        body.len()
    } else {
        256
    };
    let mut out: Vec<u8> = Vec::new();
    let mut i: usize = 0;
    while i < n
        invariant
            i <= n,
            n as int == excerpt_of(body@).len(),
            n <= body@.len(),
            out@.len() == i,
            forall|j: int| 0 <= j < i ==> out@[j] == body@[j],
        decreases n - i,
    {
        out.push(body[i]);
        i = i + 1;
    }
    proof {
        assert(out@ =~= excerpt_of(body@));
    }
    out
}

/// Classifies one fetch outcome and, on success, parses and binds the body.
/// A success status hands the body to the document pipeline; a client-error
/// status is a client failure; every other status is a server failure; the
/// failures carry the status and a bounded excerpt of the body.
pub fn resolve_response(status: u16, body: &[u8]) -> (r: Result<StellarToml, Error>)
    ensures
        is_success_status(status) ==> spec_parse_outcome(body@, result_view(r)),
        is_client_error_status(status) ==> result_view(r) == Err::<StellarTomlV, ErrorV>(
            ErrorV::ClientError { status, body_excerpt: excerpt_of(body@) },
        ),
        !is_success_status(status) && !is_client_error_status(status) ==> result_view(r)
            == Err::<StellarTomlV, ErrorV>(
            ErrorV::ServerError { status, body_excerpt: excerpt_of(body@) },
        ),
{
    if 200 <= status && status < 300 {
        parse_stellar_toml(body)
    } else if 400 <= status && status < 500 {
        Err(Error::ClientError { status, body_excerpt: body_excerpt(body) })
    } else {
        Err(Error::ServerError { status, body_excerpt: body_excerpt(body) })
    }
}

/// The address text of the document under `domain`, on the secure scheme.
pub open spec fn spec_secure_address_text(domain: Seq<char>) -> Seq<char> {
    "https://"@ + domain + "/"@ + spec_well_known_path()
}

/// The address text of the document under `domain`, on the insecure scheme.
pub open spec fn spec_insecure_address_text(domain: Seq<char>) -> Seq<char> {
    "http://"@ + domain + "/"@ + spec_well_known_path()
}

/// The secure well-known address of the document under `domain`. Address
/// construction fails only on domain input that cannot form a valid address,
/// before any fetch is attempted.
pub fn stellar_toml_path(domain: &str) -> (r: Result<NetAddress, Error>)
    ensures
        r is Ok <==> uri_ok(spec_secure_address_text(domain@)),
        r is Ok ==> r.unwrap()@ == uri_canon(spec_secure_address_text(domain@)),
        r is Err ==> r.unwrap_err().deep_view() == ErrorV::InvalidUri(
            spec_secure_address_text(domain@),
        ),
{
    let mut url: String = "https://".to_owned();
    url.append(domain);
    url.append("/");
    url.append(well_known_path());
    match NetAddress::from_text(url.as_str()) {
        Some(a) => Ok(a),
        None => Err(Error::InvalidUri(url)),
    }
}

/// The insecure well-known address of the document under `domain`: only for
/// callers who explicitly choose the insecure scheme; not recommended.
pub fn stellar_toml_path_insecure(domain: &str) -> (r: Result<NetAddress, Error>)
    ensures
        r is Ok <==> uri_ok(spec_insecure_address_text(domain@)),
        r is Ok ==> r.unwrap()@ == uri_canon(spec_insecure_address_text(domain@)),
        r is Err ==> r.unwrap_err().deep_view() == ErrorV::InvalidUri(
            spec_insecure_address_text(domain@),
        ),
{
    let mut url: String = "http://".to_owned();
    url.append(domain);
    url.append("/");
    url.append(well_known_path());
    match NetAddress::from_text(url.as_str()) {
        Some(a) => Ok(a),
        None => Err(Error::InvalidUri(url)),
    }
}

} // verus!
