//! Data files of two lines: a format marker, then a JSON array.
use vstd::prelude::*;
use crate::json::{JsonValue, JsonKind, JsonSyntaxError, kind_of, json_parse, parse_json};

verus! {

/// Why a data file is not usable.
#[derive(Clone, Copy, Debug, PartialEq, Eq, Structural)]
pub enum FileError {
    /// The file could not be read.
    Open,
    /// The file has fewer than two lines.
    Shape,
    /// The second line is not JSON.
    Parse(JsonSyntaxError),
    /// The second line is JSON, but not an array.
    NotArray(JsonKind),
}

/// Index of the first line feed at or after `from`, or the length of `s`.
pub open spec fn next_newline(s: Seq<char>, from: int) -> int
    decreases s.len() - from,
{
    if from < 0 || from >= s.len() {
        s.len() as int
    } else if s[from] == '\n' {
        from
    } else {
        next_newline(s, from + 1)
    }
}

/// The second line of a text, split as `str::lines` splits it: at `\n`, with
/// one `\r` before it dropped; a text that ends right after its first line
/// feed has one line.
pub open spec fn second_line(s: Seq<char>) -> Option<Seq<char>> {
    let p = next_newline(s, 0);
    if p + 1 >= s.len() {
        None
    } else {
        let q = next_newline(s, p + 1);
        let raw = s.subrange(p + 1, q);
        if q < s.len() && raw.len() > 0 && raw.last() == '\r' {
            Some(raw.drop_last())
        } else {
            Some(raw)
        }
    }
}

/// What a parsed second line makes of the file.
pub open spec fn array_outcome(parsed: Result<JsonValue, JsonSyntaxError>) -> Result<Vec<JsonValue>, FileError> {
    match parsed {
        Err(e) => Err(FileError::Parse(e)),
        Ok(JsonValue::Array(items)) => Ok(items),
        Ok(v) => Err(FileError::NotArray(kind_of(v))),
    }
}

/// What a data file's text decodes to.
pub open spec fn decoded_file(text: Seq<char>) -> Result<Vec<JsonValue>, FileError> {
    match second_line(text) {
        None => Err(FileError::Shape),
        Some(line) => array_outcome(json_parse(line)),
    }
}

/// Index of the first line feed at or after `from`, or the length of `s`.
fn find_newline(s: &str, len: usize, from: usize) -> (r: usize)
    requires
        len == s@.len(),
        from <= len,
    ensures
        r == next_newline(s@, from as int),
        from <= r <= len,
{
    let mut i = from;
    while i < len
        invariant
            from <= i <= len,
            len == s@.len(),
            next_newline(s@, from as int) == next_newline(s@, i as int),
        decreases len - i,
    {
        if s.get_char(i) == '\n' {
            return i;
        }
        i += 1;
    }
    i
}

/// Takes the JSON parse of a file's second line to the file's content: the
/// array, or the error.
pub fn array_from_parsed(parsed: Result<JsonValue, JsonSyntaxError>) -> (r: Result<Vec<JsonValue>, FileError>)
    ensures
        r == array_outcome(parsed),
{
    match parsed {
        Err(e) => Err(FileError::Parse(e)),
        Ok(JsonValue::Array(items)) => Ok(items),
        Ok(v) => {
            let k = crate::json::json_kind(&v);
            Err(FileError::NotArray(k))
        },
    }
}

/// Decodes a data file's text: its second line must be a JSON array.
pub fn decode_data_file(text: &str) -> (r: Result<Vec<JsonValue>, FileError>)
    ensures
        r == decoded_file(text@),
{
    let len = text.unicode_len();
    let p = find_newline(text, len, 0);
    if p >= len || p + 1 >= len {
        return Err(FileError::Shape);
    }
    let q = find_newline(text, len, p + 1);
    let mut end = q;
    if q < len && q > p + 1 && text.get_char(q - 1) == '\r' {
        end = q - 1;
    }
    let line = text.substring_char(p + 1, end);
    proof {
        let raw = text@.subrange(p + 1, q as int);
        if q < len && raw.len() > 0 && raw.last() == '\r' {
            assert(line@ =~= raw.drop_last());
        } else {
            assert(line@ =~= raw);
        }
    }
    let parsed = parse_json(line);
    array_from_parsed(parsed)
}

/// Decoding succeeds exactly on a text whose second line parses as a JSON
/// array, and then gives that array; any other second line gives the parse
/// error with its position, or the kind of value found instead of an array.
pub proof fn lemma_decoded_file(text: Seq<char>)
    ensures
        second_line(text) is None ==> decoded_file(text) == Err::<Vec<JsonValue>, FileError>(FileError::Shape),
        second_line(text) matches Some(line) ==> match json_parse(line) {
            Ok(JsonValue::Array(items)) => decoded_file(text) == Ok::<Vec<JsonValue>, FileError>(items),
            Ok(v) => decoded_file(text) == Err::<Vec<JsonValue>, FileError>(FileError::NotArray(kind_of(v))),
            Err(e) => decoded_file(text) == Err::<Vec<JsonValue>, FileError>(FileError::Parse(e)),
        },
{
}

/// The state of one source file: not chosen yet, usable, or rejected.
#[derive(Clone, Debug, PartialEq)]
pub enum MyFileEntry<T> {
    NotInited,
    Valid(T),
    InvalidWithError(FileError),
}

impl<T> MyFileEntry<T> {
    /// A file not chosen yet.
    pub fn new() -> (r: MyFileEntry<T>)
        ensures
            r is NotInited,
    {
        MyFileEntry::NotInited
    }

    pub fn is_valid(&self) -> (r: bool)
        ensures
            r == (*self is Valid),
    {
        match self {
            MyFileEntry::Valid(_) => true,
            _ => false,
        }
    }
}

} // verus!
