//! Turning the files of a directory into records: path and JSON text.

use crate::document::{parse_document, toml_accepts, toml_document, ParseError};
use crate::json::{encode, json_encoding};
use crate::value::{convert, convertible, doc_json, Doc};
use vstd::prelude::*;

verus! {

/// One row: the file's path and its document encoded as JSON text.
#[derive(Debug, PartialEq, Eq)]
pub struct Record {
    pub path: String,
    pub value: String,
}

/// A regular file found under the root, with the bytes read from it.
#[derive(Debug, PartialEq, Eq)]
pub struct SourceFile {
    pub path: String,
    pub bytes: Vec<u8>,
}

/// Why a scan could not load its files; each names the offending path.
#[derive(Debug, PartialEq, Eq)]
pub enum LoadError {
    /// The file could not be read.
    Io { path: String, cause: String },
    /// The file's text is not a TOML document.
    Parse { path: String, cause: String },
    /// The document holds a value that JSON cannot represent.
    Conversion { path: String, cause: String },
}

impl LoadError {
    /// The path that the error names.
    pub open spec fn path_view(self) -> Seq<char> {
        match self {
            LoadError::Io { path, .. } => path@,
            LoadError::Parse { path, .. } => path@,
            LoadError::Conversion { path, .. } => path@,
        }
    }

    /// The path that the error is about.
    pub fn path(&self) -> (r: &String)
        ensures
            r@ == self.path_view(),
    {
        match self {
            LoadError::Io { path, .. } => path,
            LoadError::Parse { path, .. } => path,
            LoadError::Conversion { path, .. } => path,
        }
    }
}

/// The text that lossy UTF-8 decoding makes of some bytes.
pub uninterp spec fn utf8_lossy(bytes: Seq<u8>) -> Seq<char>;

/// Relies on String::from_utf8_lossy: it never fails, and puts U+FFFD in
/// place of each invalid sequence.
#[verifier::external_body]
fn decode_lossy(bytes: &Vec<u8>) -> (r: String)
    ensures
        r@ == utf8_lossy(bytes@),
{
    String::from_utf8_lossy(bytes.as_slice()).into_owned()
}

/// The text of a file as the loader reads it.
pub open spec fn file_text(f: SourceFile) -> Seq<char> {
    utf8_lossy(f.bytes@)
}

/// A file loads when its text parses and its document converts.
pub open spec fn file_loads(f: SourceFile) -> bool {
    toml_document(file_text(f)) matches Some(d) && convertible(d)
}

/// The value column of a file that loads: the JSON text of its document.
pub open spec fn file_json(f: SourceFile) -> Seq<char> {
    json_encoding(doc_json(toml_document(file_text(f))->Some_0))
}

/// `rec` is the record of `f`.
pub open spec fn record_of(f: SourceFile, rec: Record) -> bool {
    rec.path@ == f.path@ && rec.value@ == file_json(f)
}

/// `e` is the error of a file that does not load: `Parse` where its text is
/// not TOML, `Conversion` where its document holds a non-finite float.
pub open spec fn load_error_of(f: SourceFile, e: LoadError) -> bool {
    &&& e.path_view() == f.path@
    &&& !toml_accepts(file_text(f)) ==> e is Parse
    &&& toml_accepts(file_text(f)) ==> e is Conversion
}

/// File `i` is the first of `files` that does not load.
pub open spec fn first_failure(files: Seq<SourceFile>, i: int) -> bool {
    &&& 0 <= i < files.len()
    &&& !file_loads(files[i])
    &&& forall|j: int| 0 <= j < i ==> file_loads(#[trigger] files[j])
}

/// Two loads of the same files that both succeed give the same records: the
/// same paths and the same values, in the same order.
pub proof fn lemma_loads_agree(files: Seq<SourceFile>, a: Seq<Record>, b: Seq<Record>)
    requires
        a.len() == files.len(),
        b.len() == files.len(),
        forall|i: int| 0 <= i < files.len() ==> record_of(#[trigger] files[i], a[i]),
        forall|i: int| 0 <= i < files.len() ==> record_of(#[trigger] files[i], b[i]),
    ensures
        forall|i: int|
            0 <= i < files.len() ==> (#[trigger] a[i]).path@ == b[i].path@ && a[i].value@
                == b[i].value@,
{
    assert forall|i: int| 0 <= i < files.len() implies (#[trigger] a[i]).path@ == b[i].path@
        && a[i].value@ == b[i].value@ by {
        assert(record_of(files[i], a[i]));
        assert(record_of(files[i], b[i]));
    }
}

/// Where exactly one file is not TOML and every other file loads, a load
/// that fails does so with a `Parse` error naming that file.
pub proof fn lemma_one_bad_file(files: Seq<SourceFile>, k: int, e: LoadError)
    requires
        0 <= k < files.len(),
        !toml_accepts(file_text(files[k])),
        forall|j: int| 0 <= j < files.len() && j != k ==> file_loads(#[trigger] files[j]),
        exists|i: int| first_failure(files, i) && load_error_of(#[trigger] files[i], e),
    ensures
        e is Parse,
        e.path_view() == files[k].path@,
{
    let i = choose|i: int| first_failure(files, i) && load_error_of(#[trigger] files[i], e);
    assert(i == k);
}

/// The record of a parsed document: fails only where the document holds an
/// infinite or NaN float.
pub fn document_record(path: &String, doc: &Doc) -> (r: Result<Record, LoadError>)
    ensures
        r is Ok <==> convertible(*doc),
        r matches Ok(rec) ==> rec.path@ == path@ && rec.value@ == json_encoding(doc_json(*doc)),
        r matches Err(e) ==> e is Conversion && e.path_view() == path@,
{
    match convert(doc) {
        Ok(v) => Ok(Record { path: path.clone(), value: encode(&v) }),
        Err(_) => Err(
            LoadError::Conversion {
                path: path.clone(),
                cause: "a float that is infinite or NaN has no JSON form".to_owned(),
            },
        ),
    }
}

/// Decodes, parses, converts and encodes one file.
pub fn load_record(file: &SourceFile) -> (r: Result<Record, LoadError>)
    ensures
        r is Ok <==> file_loads(*file),
        r matches Ok(rec) ==> record_of(*file, rec),
        r matches Err(e) ==> load_error_of(*file, e),
{
    let text = decode_lossy(&file.bytes);
    match parse_document(text.as_str()) {
        Ok(doc) => document_record(&file.path, &doc),
        Err(ParseError::Syntax(message)) => Err(
            LoadError::Parse { path: file.path.clone(), cause: message },
        ),
    }
}

/// Loads every file, in the order given, into one record each; the first file
/// that fails ends the load with its error, and no records are returned.
pub fn read_data(files: &Vec<SourceFile>) -> (r: Result<Vec<Record>, LoadError>)
    ensures
        r is Ok <==> forall|i: int| 0 <= i < files@.len() ==> file_loads(#[trigger] files@[i]),
        r matches Ok(recs) ==> recs@.len() == files@.len() && forall|i: int|
            0 <= i < files@.len() ==> record_of(#[trigger] files@[i], recs@[i]),
        r matches Err(e) ==> exists|i: int|
            first_failure(files@, i) && load_error_of(#[trigger] files@[i], e),
{
    let mut records: Vec<Record> = Vec::new();
    let mut i: usize = 0;
    while i < files.len()
        invariant
            i <= files@.len(),
            records@.len() == i,
            forall|j: int| 0 <= j < i ==> record_of(#[trigger] files@[j], records@[j]),
            forall|j: int| 0 <= j < i ==> file_loads(#[trigger] files@[j]),
        decreases files@.len() - i,
    {
        match load_record(&files[i]) {
            Ok(rec) => records.push(rec),
            Err(e) => {
                assert(first_failure(files@, i as int));
                return Err(e);
            },
        }
        i = i + 1;
    }
    Ok(records)
}

} // verus!
