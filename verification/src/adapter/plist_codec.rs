//! Plist files as bytes: reading them into plain values and writing documents as XML,
//! with the `plist` crate.
use crate::adapter::plist_reader::{summary_from_value, summary_matches, PlistSummary};
use crate::adapter::plist_value::{
    doc_keys, doc_of_value, dict_keys, standard_document_from_value, standard_document_to_value,
    survives_roundtrip, PlistValue,
};
use crate::domain::plist_document::StandardPlistDocument;
use crate::error::{AppError, AppResult};
use vstd::prelude::*;

verus! {

#[verifier::external_type_specification]
#[verifier::external_body]
pub struct ExPlistValue(plist::Value);

/// The value that `plist::Value::from_reader` reads from the bytes of a plist of any
/// encoding, as plain values; `None` where the bytes are not a plist.
pub uninterp spec fn plist_of_bytes(bytes: Seq<u8>) -> Option<PlistValue>;

/// The message of the `plist` crate's error for bytes that are not a plist.
pub uninterp spec fn plist_bytes_error(bytes: Seq<u8>) -> Seq<char>;

/// The XML text that `plist::Value::to_writer_xml` writes for a value.
pub uninterp spec fn plist_xml_text(value: PlistValue) -> Seq<char>;

/// Converts a `plist::Value` into a `PlistValue`, variant by variant; reals, dates, data
/// and uids become `Other`.
#[verifier::external_body]
fn value_from_plist(value: &plist::Value) -> PlistValue {
    match value {
        plist::Value::String(s) => PlistValue::String(s.clone()),
        plist::Value::Boolean(b) => PlistValue::Boolean(*b),
        plist::Value::Integer(n) => n.as_signed().map(i128::from).or(n.as_unsigned().map(i128::from)).map_or(
            PlistValue::Other,
            PlistValue::Integer,
        ),
        plist::Value::Array(items) => PlistValue::Array(items.iter().map(value_from_plist).collect()),
        plist::Value::Dictionary(dict) => PlistValue::Dictionary(
            dict.iter().map(|(k, v)| (k.clone(), value_from_plist(v))).collect(),
        ),
        _ => PlistValue::Other,
    }
}

/// Converts a `PlistValue` into a `plist::Value`, variant by variant; `Other` becomes an
/// empty string, and an integer is kept as unsigned where it is not negative.
#[verifier::external_body]
fn value_to_plist(value: &PlistValue) -> plist::Value {
    match value {
        PlistValue::String(s) => plist::Value::String(s.clone()),
        PlistValue::Boolean(b) => plist::Value::Boolean(*b),
        PlistValue::Integer(n) => plist::Value::Integer(
            u64::try_from(*n).map_or(i64::try_from(*n).unwrap_or(i64::MIN).into(), |v| v.into()),
        ),
        PlistValue::Array(items) => plist::Value::Array(items.iter().map(value_to_plist).collect()),
        PlistValue::Dictionary(entries) => plist::Value::Dictionary(
            entries.iter().map(|(k, v)| (k.clone(), value_to_plist(v))).collect(),
        ),
        PlistValue::Other => plist::Value::String(String::new()),
    }
}

/// Calls `plist::Value::from_reader` on the bytes; the contract claims that the outcome
/// is a function of the bytes alone.
#[verifier::external_body]
fn parse_plist_bytes(bytes: &[u8]) -> (r: Result<PlistValue, String>)
    ensures
        r matches Ok(v) ==> plist_of_bytes(bytes@) == Some(v),
        r matches Err(m) ==> plist_of_bytes(bytes@) is None && m@ == plist_bytes_error(bytes@),
{
    plist::Value::from_reader(std::io::Cursor::new(bytes)).map(|v| value_from_plist(&v)).map_err(
        |e| e.to_string(),
    )
}

/// Calls `plist::Value::to_writer_xml` into memory and reads the bytes as text; the
/// contract claims that the text is a function of the value alone. Writing into memory
/// does not fail for the values the library builds: strings, booleans, integers, arrays
/// and dictionaries.
#[verifier::external_body]
fn write_plist_xml(value: &PlistValue) -> (r: String)
    ensures
        r@ == plist_xml_text(*value),
{
    let mut out: Vec<u8> = Vec::new();
    let _ = value_to_plist(value).to_writer_xml(&mut out);
    String::from_utf8_lossy(&out).into_owned()
}

/// The summary of the plist in the bytes, or the parser's refusal.
pub fn summary_from_bytes(bytes: &[u8]) -> (r: AppResult<PlistSummary>)
    ensures
        match plist_of_bytes(bytes@) {
            Some(v) => r matches Ok(s) && summary_matches(s, v),
            None => r matches Err(AppError::Plist(m)) && m@ == plist_bytes_error(bytes@),
        },
{
    match parse_plist_bytes(bytes) {
        Ok(v) => Ok(summary_from_value(&v)),
        Err(m) => Err(AppError::Plist(m)),
    }
}

/// The standard document of the plist in the bytes, or the parser's refusal.
pub fn document_from_bytes(bytes: &[u8]) -> (r: AppResult<StandardPlistDocument>)
    ensures
        match plist_of_bytes(bytes@) {
            Some(v) => r matches Ok(d) && d@ == doc_of_value(v),
            None => r matches Err(AppError::Plist(m)) && m@ == plist_bytes_error(bytes@),
        },
{
    match parse_plist_bytes(bytes) {
        Ok(v) => Ok(standard_document_from_value(&v)),
        Err(m) => Err(AppError::Plist(m)),
    }
}

/// The plist XML of a document: the XML of the dictionary that holds its keys, which
/// reads back as the document wherever the document survives the round trip.
pub fn document_xml(document: &StandardPlistDocument) -> (r: String)
    ensures
        exists|v: PlistValue|
            #[trigger] plist_xml_text(v) == r@ && (v matches PlistValue::Dictionary(d) && dict_keys(
                d@,
            ) == doc_keys(document@)) && (survives_roundtrip(document@) ==> doc_of_value(v)
                == document@),
{
    let v = standard_document_to_value(document);
    write_plist_xml(&v)
}

} // verus!
