//! Where standard plist documents are loaded, saved and rendered as XML.
use crate::domain::plist_document::StandardPlistDocument;
use crate::error::AppResult;
use vstd::prelude::*;

verus! {

/// Reads and writes plist files as standard documents.
pub trait PlistDocumentStore {
    fn load_standard_document(&self, path: &str) -> AppResult<StandardPlistDocument>;

    fn save_standard_document(&self, path: &str, document: &StandardPlistDocument) -> AppResult<
        (),
    >;

    fn to_xml(&self, document: &StandardPlistDocument) -> AppResult<String>;
}

} // verus!
