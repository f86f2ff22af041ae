use vstd::prelude::*;

verus! {

/// The error of the `regex` crate for a pattern that does not compile.
#[verifier::external_type_specification]
#[verifier::external_body]
pub struct ExRegexError(regex::Error);

/// The error of the `csv` crate for data that it cannot read.
#[verifier::external_type_specification]
#[verifier::external_body]
pub struct ExCsvError(csv::Error);

/// What the `regex` crate finds for a pattern in a text. `None`: the pattern
/// does not compile. `Some(None)`: the pattern matches nowhere in the text.
/// `Some(Some(groups))`: the capture groups of the first match, group 0 (the
/// whole match) first, each `None` where the group took no part in the match.
pub uninterp spec fn regex_captures(pattern: Seq<char>, text: Seq<char>) -> Option<
    Option<Seq<Option<Seq<char>>>>,
>;

/// What the `csv` crate reads from data with a given delimiter, with or
/// without a header line. `None`: the data cannot be read. `Some(records)`:
/// the records in order, each the sequence of its fields.
pub uninterp spec fn csv_records(data: Seq<u8>, delimiter: u8, has_headers: bool) -> Option<
    Seq<Seq<Seq<char>>>,
>;

/// Compiles `pattern` with `regex::Regex::new` and searches `text` with
/// `Regex::captures`. Trusted: the result is the crate's answer for this
/// pattern and text, which depends on nothing else; an error is returned only
/// where the pattern does not compile. Nothing is claimed of what matches.
#[verifier::external_body]
pub(crate) fn captures(pattern: &str, text: &str) -> (found: Result<
    Option<Vec<Option<String>>>,
    regex::Error,
>)
    ensures
        match found {
            Ok(groups) => regex_captures(pattern@, text@) == Some(groups.deep_view()),
            Err(_) => regex_captures(pattern@, text@) is None,
        },
{
    let regex = regex::Regex::new(pattern)?;
    Ok(
        regex.captures(text).map(
            |found| found.iter().map(|group| group.map(|m| m.as_str().to_string())).collect(),
        ),
    )
}

/// Reads all records of `data` with a reader built by `csv::ReaderBuilder`
/// (`has_headers`, `delimiter`, `from_reader`) and `Reader::records`.
/// Trusted: the result is the crate's answer for these bytes and settings,
/// which depends on nothing else; an error is returned only where a record
/// cannot be read. Nothing is claimed of how the bytes are divided.
#[verifier::external_body]
pub(crate) fn read_records(data: &[u8], delimiter: u8, has_headers: bool) -> (records: Result<
    Vec<Vec<String>>,
    csv::Error,
>)
    ensures
        match records {
            Ok(rows) => csv_records(data@, delimiter, has_headers) == Some(rows.deep_view()),
            Err(_) => csv_records(data@, delimiter, has_headers) is None,
        },
{
    let mut reader = csv::ReaderBuilder::new().has_headers(has_headers).delimiter(
        delimiter,
    ).from_reader(data);
    reader.records().map(
        |record| record.map(|fields| fields.iter().map(|field| field.to_string()).collect()),
    ).collect()
}

} // verus!
