//! Extraction of a header value from the provider's embedded header blob.
//!
//! The blob is a JSON-encoded array of `[name, value]` pairs. Extraction
//! parses it, skips elements that are not a two-element array of strings,
//! and returns the value of the first pair whose name equals `message-id`
//! up to ASCII case.

use vstd::prelude::*;

use crate::text::eq_ci;

verus! {

/// A failed extraction: the blob did not parse as a JSON array, or no
/// well-formed pair carried the wanted name.
#[derive(Clone, Copy, Debug, PartialEq, Eq, Structural)]
pub enum HeaderError {
    JsonParseError,
    NotFoundError,
}

/// One element inside a candidate header pair: a JSON string, or any other
/// JSON value.
#[derive(Debug, PartialEq, Eq)]
pub enum HeaderCell {
    Text(String),
    NonText,
}

/// One element of the top-level array: a JSON array of cells, or any other
/// JSON value.
#[derive(Debug, PartialEq, Eq)]
pub enum HeaderEntry {
    List(Vec<HeaderCell>),
    NonList,
}

/// The shape of the parsed header blob, as far as extraction reads it: the
/// elements of the top-level array, or the fact that the text was not a
/// JSON array at all.
#[derive(Debug, PartialEq, Eq)]
pub enum HeaderDoc {
    Entries(Vec<HeaderEntry>),
    NotArray,
}

/// The header document a given text parses to. Parsing is a pure function
/// of the text; its value is not written out here.
pub uninterp spec fn header_doc_of(s: Seq<char>) -> HeaderDoc;

/// Relies on `serde_json::from_str::<Value>`: the parse result is a
/// function of the input text alone. The match keeps exactly the shape the
/// extractor reads — which top-level elements are arrays, and which of
/// their elements are strings — and nothing else.
#[verifier::external_body]
fn parse_header_doc(s: &str) -> (r: HeaderDoc)
    ensures
        r == header_doc_of(s@),
{
    match serde_json::from_str::<serde_json::Value>(s) {
        Ok(serde_json::Value::Array(items)) => HeaderDoc::Entries(
            items.into_iter().map(|item| match item {
                serde_json::Value::Array(cells) => HeaderEntry::List(
                    cells.into_iter().map(|cell| match cell {
                        serde_json::Value::String(t) => HeaderCell::Text(t),
                        _ => HeaderCell::NonText,
                    }).collect(),
                ),
                _ => HeaderEntry::NonList,
            }).collect(),
        ),
        _ => HeaderDoc::NotArray,
    }
}

/// The name and value of a well-formed header pair: a two-element array
/// whose elements are both strings. Anything else is no pair.
pub open spec fn entry_pair(e: HeaderEntry) -> Option<(Seq<char>, Seq<char>)> {
    match e {
        HeaderEntry::List(cells) => {
            if cells@.len() == 2 {
                match (cells@[0], cells@[1]) {
                    (HeaderCell::Text(n), HeaderCell::Text(v)) => Some((n@, v@)),
                    _ => None,
                }
            } else {
                None
            }
        },
        HeaderEntry::NonList => None,
    }
}

/// Whether an entry is a well-formed pair named `message-id`, up to ASCII
/// case.
pub open spec fn entry_matches(e: HeaderEntry) -> bool {
    entry_pair(e) is Some && eq_ci(entry_pair(e)->Some_0.0, "message-id"@)
}

/// The value of the first matching pair, scanning left to right.
pub open spec fn message_id_in(entries: Seq<HeaderEntry>) -> Option<Seq<char>>
    decreases entries.len(),
{
    if entries.len() == 0 {
        None
    } else if entry_matches(entries[0]) {
        Some(entry_pair(entries[0])->Some_0.1)
    } else {
        message_id_in(entries.drop_first())
    }
}

/// What extraction returns on each parsed document: text that is not a
/// JSON array fails to parse; an array without a matching pair has no
/// message id; otherwise the first matching pair's value is returned.
pub open spec fn extract_outcome(doc: HeaderDoc) -> Result<Seq<char>, HeaderError> {
    match doc {
        HeaderDoc::Entries(entries) => match message_id_in(entries@) {
            Some(v) => Ok(v),
            None => Err(HeaderError::NotFoundError),
        },
        HeaderDoc::NotArray => Err(HeaderError::JsonParseError),
    }
}

/// Names that differ only in ASCII case are matched alike: the extractor
/// cannot tell one case variant of the wanted name from another.
pub proof fn lemma_match_ignores_ascii_case(e1: HeaderEntry, e2: HeaderEntry)
    requires
        entry_pair(e1) is Some,
        entry_pair(e2) is Some,
        eq_ci(entry_pair(e1)->Some_0.0, entry_pair(e2)->Some_0.0),
    ensures
        entry_matches(e1) == entry_matches(e2),
{
    crate::text::lemma_eq_ci_same_class(
        entry_pair(e1)->Some_0.0,
        entry_pair(e2)->Some_0.0,
        "message-id"@,
    );
}

proof fn lemma_message_id_skip(entries: Seq<HeaderEntry>, i: int)
    requires
        0 <= i < entries.len(),
        !entry_matches(entries[i]),
    ensures
        message_id_in(entries.skip(i)) == message_id_in(entries.skip(i + 1)),
{
    assert(entries.skip(i)[0] == entries[i]);
    assert(entries.skip(i).drop_first() =~= entries.skip(i + 1));
}

/// Scans the entries of a parsed array for the first matching pair.
fn scan_entries(entries: &Vec<HeaderEntry>) -> (r: Option<String>)
    ensures
        match r {
            Some(v) => message_id_in(entries@) is Some && v@ == message_id_in(entries@)->Some_0,
            None => message_id_in(entries@) is None,
        },
{
    let n: usize = entries.len();
    let mut i: usize = 0;
    proof {
        assert(entries@.skip(0) =~= entries@);
    }
    while i < n
        invariant
            0 <= i <= n,
            n == entries@.len(),
            message_id_in(entries@) == message_id_in(entries@.skip(i as int)),
        decreases n - i,
    {
        let matched: Option<String> = match &entries[i] {
            HeaderEntry::List(cells) => {
                if cells.len() == 2 {
                    match (&cells[0], &cells[1]) {
                        (HeaderCell::Text(name), HeaderCell::Text(value)) => {
                            if crate::text::str_eq_ignore_ascii_case(name.as_str(), "message-id") {
                                Some(value.clone())
                            } else {
                                None
                            }
                        },
                        _ => None,
                    }
                } else {
                    None
                }
            },
            HeaderEntry::NonList => None,
        };
        match matched {
            Some(v) => {
                proof {
                    assert(entry_matches(entries@[i as int]));
                    assert(entries@.skip(i as int)[0] == entries@[i as int]);
                    assert(message_id_in(entries@.skip(i as int)) == Some(
                        entry_pair(entries@[i as int])->Some_0.1,
                    ));
                    assert(v@ == entry_pair(entries@[i as int])->Some_0.1);
                }
                return Some(v);
            },
            None => {
                proof {
                    assert(!entry_matches(entries@[i as int]));
                    lemma_message_id_skip(entries@, i as int);
                }
                i = i + 1;
            },
        }
    }
    proof {
        assert(entries@.skip(n as int).len() == 0);
    }
    None
}

/// Finds the message id in a parsed header document.
pub fn find_message_id(doc: &HeaderDoc) -> (r: Result<String, HeaderError>)
    ensures
        match r {
            Ok(v) => extract_outcome(*doc) is Ok && v@ == extract_outcome(*doc)->Ok_0,
            Err(e) => extract_outcome(*doc) == Err::<Seq<char>, HeaderError>(e),
        },
{
    match doc {
        HeaderDoc::NotArray => Err(HeaderError::JsonParseError),
        HeaderDoc::Entries(entries) => match scan_entries(entries) {
            Some(v) => Ok(v),
            None => Err(HeaderError::NotFoundError),
        },
    }
}

/// Parses the raw header blob and extracts the message id: the value of
/// the first `[name, value]` string pair whose name is `message-id` up to
/// ASCII case. Text that does not parse as a JSON array fails with a parse
/// error; a parsed array without such a pair reports the id as not found.
pub fn extract_message_id(message_headers: &str) -> (r: Result<String, HeaderError>)
    ensures
        match r {
            Ok(v) => extract_outcome(header_doc_of(message_headers@)) is Ok && v@
                == extract_outcome(header_doc_of(message_headers@))->Ok_0,
            Err(e) => extract_outcome(header_doc_of(message_headers@)) == Err::<
                Seq<char>,
                HeaderError,
            >(e),
        },
{
    let doc = parse_header_doc(message_headers);
    find_message_id(&doc)
}

} // verus!
