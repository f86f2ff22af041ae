use vstd::prelude::*;
use vstd::string::*;

use crate::age_sex::{new_enrollee_key, new_enrollee_name};
use crate::fields::{remove_char, split, split_on, trim, trimmed, without};
use crate::table::{keys_of, map_of, Table};
use crate::text::{clone_names, distinct, listed, push_name};
use crate::trusted::{captures, csv_records, read_records, regex_captures};

verus! {

/// The Medicaid part of a new-enrollee variable: `NMCAID` first, then `MCAID`.
pub open spec fn medicaid_part(i: int) -> Seq<char> {
    if i == 0 {
        "NMCAID"@
    } else {
        "MCAID"@
    }
}

/// The originally-disabled part of a new-enrollee variable: `ORIGDS` first,
/// then `NORIGDS`.
pub open spec fn origds_part(i: int) -> Seq<char> {
    if i == 0 {
        "ORIGDS"@
    } else {
        "NORIGDS"@
    }
}

/// A new-enrollee variable: the three parts joined by underscores.
pub open spec fn ne_variable(medicaid: Seq<char>, origds: Seq<char>, bucket: Seq<char>) -> Seq<
    char,
> {
    medicaid + "_"@ + origds + "_"@ + bucket
}

/// The new-enrollee regression variable at place `i`, `0 <= i < 108`.
///
/// The first 88 places hold the 22 buckets of 65 and over (female before
/// male, by rising age), each with its four combinations of Medicaid part and
/// originally-disabled part, the latter changing fastest. The last 20 places
/// hold the 10 buckets under 65, each with its two Medicaid parts and
/// `NORIGDS`.
pub open spec fn ne_reg_variable(i: int) -> Seq<char> {
    if i < 88 {
        let bucket = i / 4;
        ne_variable(
            medicaid_part((i % 4) / 2),
            origds_part(i % 2),
            new_enrollee_name(bucket >= 11, 5 + bucket % 11),
        )
    } else {
        let bucket = (i - 88) / 2;
        ne_variable(
            medicaid_part((i - 88) % 2),
            origds_part(1),
            new_enrollee_name(bucket >= 5, bucket % 5),
        )
    }
}

/// The 108 variables of the new-enrollee regressions.
pub open spec fn ne_reg_variables() -> Seq<Seq<char>> {
    Seq::new(108, |i: int| ne_reg_variable(i))
}

/// Joins the three parts of a new-enrollee variable.
pub fn ne_variable_key(medicaid: &str, origds: &str, bucket: &str) -> (name: String)
    ensures
        name@ == ne_variable(medicaid@, origds@, bucket@),
{
    let mut name = String::from_str(medicaid);
    name.append("_");
    name.append(origds);
    name.append("_");
    name.append(bucket);
    name
}

/// Builds the list of the variables of the new-enrollee regressions.
pub fn build_ne_reg_variable_list() -> (list: Vec<String>)
    ensures
        list.deep_view() == ne_reg_variables(),
{
    let mut list: Vec<String> = Vec::new();
    let mut i: usize = 0;
    while i < 108
        invariant
            i <= 108,
            list.len() == i,
            forall|k: int| 0 <= k < i ==> #[trigger] list.deep_view()[k] == ne_reg_variable(k),
        decreases 108 - i,
    {
        let medicaid = if i < 88 {
            (i % 4) / 2
        } else {
            (i - 88) % 2
        };
        let origds = if i < 88 {
            i % 2
        } else {
            1
        };
        let bucket = if i < 88 {
            new_enrollee_key(i / 4 >= 11, 5 + (i / 4) % 11)
        } else {
            new_enrollee_key((i - 88) / 2 >= 5, ((i - 88) / 2) % 5)
        };
        let name = ne_variable_key(
            if medicaid == 0 {
                "NMCAID"
            } else {
                "MCAID"
            },
            if origds == 0 {
                "ORIGDS"
            } else {
                "NORIGDS"
            },
            bucket.as_str(),
        );
        assert(name@ == ne_reg_variable(i as int));
        push_name(&mut list, name);
        i += 1;
    }
    assert(list.deep_view() =~= ne_reg_variables());
    list
}

/// Why a reference file could not be parsed.
#[derive(Clone, Copy, Debug, PartialEq, Eq, Structural)]
pub enum ParseError {
    /// The pattern of a line format does not compile.
    Pattern,
    /// A line matches its pattern, but a capture group took no part.
    MissingGroup,
    /// The delimited data cannot be read as records.
    Records,
    /// A record has fewer than two fields.
    MissingField,
    /// The header line and the value line differ in their number of fields.
    LengthMismatch,
}

impl ParseError {
    /// A sentence that says what went wrong.
    pub fn message(&self) -> (text: String)
        ensures
            text@ == match *self {
                ParseError::Pattern => "the pattern of the line format does not compile"@,
                ParseError::MissingGroup => "a capture group took no part in the match"@,
                ParseError::Records => "the data cannot be read as records"@,
                ParseError::MissingField => "a record has fewer than two fields"@,
                ParseError::LengthMismatch => "header and values differ in length"@,
            },
    {
        String::from_str(
            match self {
                ParseError::Pattern => "the pattern of the line format does not compile",
                ParseError::MissingGroup => "a capture group took no part in the match",
                ParseError::Records => "the data cannot be read as records",
                ParseError::MissingField => "a record has fewer than two fields",
                ParseError::LengthMismatch => "header and values differ in length",
            },
        )
    }
}

/// The entries that a sequence of parsed items yields: the items that hold
/// an entry, in order. The first item that is an error makes the whole an
/// error.
pub open spec fn gathered<T>(items: Seq<Result<Option<T>, ParseError>>) -> Result<
    Seq<T>,
    ParseError,
>
    decreases items.len(),
{
    if items.len() == 0 {
        Ok(Seq::empty())
    } else {
        match gathered(items.drop_last()) {
            Err(error) => Err(error),
            Ok(entries) => match items.last() {
                Err(error) => Err(error),
                Ok(None) => Ok(entries),
                Ok(Some(entry)) => Ok(entries.push(entry)),
            },
        }
    }
}

/// An error among the first items is the error of the whole.
pub proof fn lemma_gathered_error_stays<T>(items: Seq<Result<Option<T>, ParseError>>, n: int)
    requires
        0 <= n <= items.len(),
        gathered(items.subrange(0, n)) is Err,
    ensures
        gathered(items) == gathered(items.subrange(0, n)),
    decreases items.len() - n,
{
    if n < items.len() {
        assert(items.subrange(0, n + 1).drop_last() =~= items.subrange(0, n));
        lemma_gathered_error_stays(items, n + 1);
    } else {
        assert(items.subrange(0, n) =~= items);
    }
}

/// The capture group `i`, where the match has one.
pub open spec fn group(groups: Seq<Option<Seq<char>>>, i: int) -> Option<Seq<char>> {
    if 0 <= i < groups.len() {
        groups[i]
    } else {
        None
    }
}

/// Searches `line` for `pattern` and returns the capture groups of the first
/// match, if there is one.
pub fn match_line(pattern: &str, line: &str) -> (found: Result<
    Option<Vec<Option<String>>>,
    ParseError,
>)
    ensures
        match found {
            Ok(groups) => regex_captures(pattern@, line@) == Some(groups.deep_view()),
            Err(error) => error == ParseError::Pattern && regex_captures(pattern@, line@) is None,
        },
{
    match captures(pattern, line) {
        Ok(groups) => Ok(groups),
        Err(_) => Err(ParseError::Pattern),
    }
}

/// A copy of capture group `i`, where the match has one.
pub fn group_text(groups: &Vec<Option<String>>, i: usize) -> (text: Option<String>)
    ensures
        text.deep_view() == group(groups.deep_view(), i as int),
{
    if i < groups.len() {
        match &groups[i] {
            Some(text) => Some(text.clone()),
            None => None,
        }
    } else {
        None
    }
}

/// The pattern of an entry of the label file: an HCC or CC identifier, an
/// equals sign, and the label between double quotes.
pub open spec fn label_pattern() -> Seq<char> {
    "\\s*((?:HCC|CC)\\d+)\\s*=\\s*\"([^\"]+)"@
}

/// The pattern of an entry of the label file.
pub fn label_pattern_text() -> (pattern: &'static str)
    ensures
        pattern@ == label_pattern(),
{
    "\\s*((?:HCC|CC)\\d+)\\s*=\\s*\"([^\"]+)"
}

/// The entry of a line of the label file that matched: the identifier is
/// group 1, the label group 2.
pub open spec fn label_entry_of(groups: Seq<Option<Seq<char>>>) -> Result<
    (Seq<char>, Seq<char>),
    ParseError,
> {
    match (group(groups, 1), group(groups, 2)) {
        (Some(hcc), Some(label)) => Ok((hcc, label)),
        _ => Err(ParseError::MissingGroup),
    }
}

/// What a line of the label file yields, given the capture groups of its
/// match, if it has one: an entry, nothing where the line does not match, or
/// an error.
pub open spec fn label_match_of(found: Option<Seq<Option<Seq<char>>>>) -> Result<
    Option<(Seq<char>, Seq<char>)>,
    ParseError,
> {
    match found {
        None => Ok(None),
        Some(groups) => match label_entry_of(groups) {
            Ok(entry) => Ok(Some(entry)),
            Err(error) => Err(error),
        },
    }
}

/// What the lines of a label file yield, line by line, given what the search
/// found in each.
pub open spec fn label_matches_of(found: Seq<Option<Seq<Option<Seq<char>>>>>) -> Seq<
    Result<Option<(Seq<char>, Seq<char>)>, ParseError>,
> {
    found.map_values(|found: Option<Seq<Option<Seq<char>>>>| label_match_of(found))
}

/// What a line of the label file yields, given what the search for the
/// label pattern found in it; a pattern that does not compile is an error.
pub open spec fn label_line_of(found: Option<Option<Seq<Option<Seq<char>>>>>) -> Result<
    Option<(Seq<char>, Seq<char>)>,
    ParseError,
> {
    match found {
        None => Err(ParseError::Pattern),
        Some(found) => label_match_of(found),
    }
}

/// What the lines of a label file yield, line by line.
pub open spec fn label_lines_of(lines: Seq<Seq<char>>) -> Seq<
    Result<Option<(Seq<char>, Seq<char>)>, ParseError>,
> {
    lines.map_values(|line: Seq<char>| label_line_of(regex_captures(label_pattern(), line)))
}

/// The entry of a line of the label file, from the capture groups of its match.
pub fn label_entry(groups: &Vec<Option<String>>) -> (entry: Result<(String, String), ParseError>)
    ensures
        match entry {
            Ok(pair) => label_entry_of(groups.deep_view()) == Ok::<
                (Seq<char>, Seq<char>),
                ParseError,
            >((pair.0@, pair.1@)),
            Err(error) => label_entry_of(groups.deep_view()) == Err::<
                (Seq<char>, Seq<char>),
                ParseError,
            >(error),
        },
{
    match (group_text(groups, 1), group_text(groups, 2)) {
        (Some(hcc), Some(label)) => Ok((hcc, label)),
        _ => Err(ParseError::MissingGroup),
    }
}

/// Builds the table from HCC or CC identifier to label out of what the
/// search for the label pattern found in each line of a label file. Lines
/// without a match are passed over; an identifier that occurs again takes the
/// later label.
pub fn labels_from_matches(found: &Vec<Option<Vec<Option<String>>>>) -> (labels: Result<
    Table<String>,
    ParseError,
>)
    ensures
        match gathered(label_matches_of(found.deep_view())) {
            Ok(entries) => labels is Ok && labels->Ok_0@ == map_of(entries)
                && labels->Ok_0.names() == distinct(keys_of(entries)),
            Err(error) => labels is Err && labels->Err_0 == error,
        },
{
    let ghost items = label_matches_of(found.deep_view());
    let ghost mut entries: Seq<(Seq<char>, Seq<char>)> = Seq::empty();
    let mut labels: Table<String> = Table::new();
    let mut i: usize = 0;
    proof {
        assert(items.subrange(0, 0) =~= Seq::empty());
        assert(keys_of(entries) =~= Seq::<Seq<char>>::empty());
    }
    while i < found.len()
        invariant
            i <= found.len(),
            items == label_matches_of(found.deep_view()),
            gathered(items.subrange(0, i as int)) == Ok::<Seq<(Seq<char>, Seq<char>)>, ParseError>(
                entries,
            ),
            labels@ == map_of(entries),
            labels.names() == distinct(keys_of(entries)),
        decreases found.len() - i,
    {
        proof {
            assert(items.subrange(0, i + 1).drop_last() =~= items.subrange(0, i as int));
            assert(items.subrange(0, i + 1).last() == label_match_of(
                found.deep_view()[i as int],
            ));
            assert(found.deep_view()[i as int] == found[i as int].deep_view());
        }
        match &found[i] {
            Some(groups) => {
                match label_entry(groups) {
                    Ok(pair) => {
                        proof {
                            let longer = entries.push((pair.0@, pair.1@));
                            assert(longer.drop_last() =~= entries);
                            assert(keys_of(longer).drop_last() =~= keys_of(entries));
                            entries = longer;
                        }
                        labels.insert(pair.0, pair.1);
                    },
                    Err(error) => {
                        proof {
                            lemma_gathered_error_stays(items, i + 1);
                        }
                        return Err(error);
                    },
                }
            },
            None => {},
        }
        i += 1;
    }
    assert(items.subrange(0, i as int) =~= items);
    Ok(labels)
}

/// Parses the lines of a label file into a table from HCC or CC identifier
/// to label: searches each line for the label pattern and builds the table
/// out of what was found.
pub fn parse_hcc_labels(lines: &Vec<String>) -> (labels: Result<Table<String>, ParseError>)
    ensures
        match gathered(label_lines_of(lines.deep_view())) {
            Ok(entries) => labels is Ok && labels->Ok_0@ == map_of(entries)
                && labels->Ok_0.names() == distinct(keys_of(entries)),
            Err(error) => labels is Err && labels->Err_0 == error,
        },
{
    let ghost items = label_lines_of(lines.deep_view());
    let mut found: Vec<Option<Vec<Option<String>>>> = Vec::new();
    let mut i: usize = 0;
    assert(items.subrange(0, 0) =~= label_matches_of(found.deep_view()));
    while i < lines.len()
        invariant
            i <= lines.len(),
            items == label_lines_of(lines.deep_view()),
            items.subrange(0, i as int) == label_matches_of(found.deep_view()),
        decreases lines.len() - i,
    {
        let ghost before = found.deep_view();
        proof {
            assert(items.subrange(0, i + 1) =~= items.subrange(0, i as int).push(
                label_line_of(regex_captures(label_pattern(), lines.deep_view()[i as int])),
            ));
            assert(items.subrange(0, i + 1).drop_last() =~= items.subrange(0, i as int));
        }
        match match_line(label_pattern_text(), lines[i].as_str()) {
            Ok(groups) => {
                let ghost searched = groups.deep_view();
                found.push(groups);
                assert(found.deep_view() =~= before.push(searched));
                assert(label_matches_of(found.deep_view()) =~= label_matches_of(before).push(
                    label_match_of(searched),
                ));
            },
            Err(error) => {
                let earlier = labels_from_matches(&found);
                proof {
                    if gathered(items.subrange(0, i as int)) is Err {
                        lemma_gathered_error_stays(items, i as int);
                    } else {
                        lemma_gathered_error_stays(items, i + 1);
                    }
                }
                return match earlier {
                    Ok(_) => Err(error),
                    Err(first) => Err(first),
                };
            },
        }
        i += 1;
    }
    assert(items.subrange(0, i as int) =~= items);
    labels_from_matches(&found)
}

/// The pattern of an entry of the hierarchy file: the number of the superior
/// CC after `%SET0(CC=`, and the list of its inferiors inside `%STR(..)`.
pub open spec fn hier_pattern() -> Seq<char> {
    "%SET0\\(CC=(\\d+).+%STR\\((.+)\\)\\)"@
}

/// The pattern of an entry of the hierarchy file.
pub fn hier_pattern_text() -> (pattern: &'static str)
    ensures
        pattern@ == hier_pattern(),
{
    "%SET0\\(CC=(\\d+).+%STR\\((.+)\\)\\)"
}

/// An HCC label: `HCC` before the CC number, which is trimmed first.
pub open spec fn hcc_of(number: Seq<char>) -> Seq<char> {
    "HCC"@ + trimmed(number)
}

/// The inferiors that a comma-separated list of CC numbers names.
pub open spec fn inferiors_listed(list: Seq<char>) -> Seq<Seq<char>> {
    split_on(list, ',').map_values(|number: Seq<char>| hcc_of(number))
}

/// The entry of a line of the hierarchy file that matched: the superior is
/// `HCC` and group 1, the inferiors are the numbers listed in group 2.
pub open spec fn hier_entry_of(groups: Seq<Option<Seq<char>>>) -> Result<
    (Seq<char>, Seq<Seq<char>>),
    ParseError,
> {
    match (group(groups, 1), group(groups, 2)) {
        (Some(number), Some(list)) => Ok(("HCC"@ + number, inferiors_listed(list))),
        _ => Err(ParseError::MissingGroup),
    }
}

/// What a line of the hierarchy file yields, given the capture groups of
/// its match, if it has one.
pub open spec fn hier_match_of(found: Option<Seq<Option<Seq<char>>>>) -> Result<
    Option<(Seq<char>, Seq<Seq<char>>)>,
    ParseError,
> {
    match found {
        None => Ok(None),
        Some(groups) => match hier_entry_of(groups) {
            Ok(entry) => Ok(Some(entry)),
            Err(error) => Err(error),
        },
    }
}

/// What the lines of a hierarchy file yield, line by line, given what the
/// search found in each.
pub open spec fn hier_matches_of(found: Seq<Option<Seq<Option<Seq<char>>>>>) -> Seq<
    Result<Option<(Seq<char>, Seq<Seq<char>>)>, ParseError>,
> {
    found.map_values(|found: Option<Seq<Option<Seq<char>>>>| hier_match_of(found))
}

/// What a line of the hierarchy file yields, given what the search for the
/// hierarchy pattern found in it; a pattern that does not compile is an error.
pub open spec fn hier_line_of(found: Option<Option<Seq<Option<Seq<char>>>>>) -> Result<
    Option<(Seq<char>, Seq<Seq<char>>)>,
    ParseError,
> {
    match found {
        None => Err(ParseError::Pattern),
        Some(found) => hier_match_of(found),
    }
}

/// What the lines of a hierarchy file yield, line by line.
pub open spec fn hier_lines_of(lines: Seq<Seq<char>>) -> Seq<
    Result<Option<(Seq<char>, Seq<Seq<char>>)>, ParseError>,
> {
    lines.map_values(|line: Seq<char>| hier_line_of(regex_captures(hier_pattern(), line)))
}

/// The HCC labels of a comma-separated list of CC numbers.
pub fn parse_inferiors(list: &str) -> (inferiors: Vec<String>)
    ensures
        inferiors.deep_view() == inferiors_listed(list@),
{
    let numbers = split(list, ',');
    let mut inferiors: Vec<String> = Vec::new();
    let mut i: usize = 0;
    while i < numbers.len()
        invariant
            i <= numbers.len(),
            numbers.deep_view() == split_on(list@, ','),
            inferiors.len() == i,
            forall|k: int|
                0 <= k < i ==> #[trigger] inferiors.deep_view()[k] == hcc_of(numbers.deep_view()[k]),
        decreases numbers.len() - i,
    {
        let mut hcc = String::from_str("HCC");
        hcc.append(trim(numbers[i].as_str()).as_str());
        push_name(&mut inferiors, hcc);
        i += 1;
    }
    assert(inferiors.deep_view() =~= inferiors_listed(list@));
    inferiors
}

/// The entry of a line of the hierarchy file, from the capture groups of its
/// match.
pub fn hier_entry(groups: &Vec<Option<String>>) -> (entry: Result<
    (String, Vec<String>),
    ParseError,
>)
    ensures
        match entry {
            Ok(pair) => hier_entry_of(groups.deep_view()) == Ok::<
                (Seq<char>, Seq<Seq<char>>),
                ParseError,
            >((pair.0@, pair.1.deep_view())),
            Err(error) => hier_entry_of(groups.deep_view()) == Err::<
                (Seq<char>, Seq<Seq<char>>),
                ParseError,
            >(error),
        },
{
    match (group_text(groups, 1), group_text(groups, 2)) {
        (Some(number), Some(list)) => {
            let mut superior = String::from_str("HCC");
            superior.append(number.as_str());
            Ok((superior, parse_inferiors(list.as_str())))
        },
        _ => Err(ParseError::MissingGroup),
    }
}

/// Builds the table from superior HCC to the HCCs that it suppresses out of
/// what the search for the hierarchy pattern found in each line of a
/// hierarchy file. Lines without a match are passed over; a superior that
/// occurs again takes the later list.
pub fn hiers_from_matches(found: &Vec<Option<Vec<Option<String>>>>) -> (hiers: Result<
    Table<Vec<String>>,
    ParseError,
>)
    ensures
        match gathered(hier_matches_of(found.deep_view())) {
            Ok(entries) => hiers is Ok && hiers->Ok_0@ == map_of(entries)
                && hiers->Ok_0.names() == distinct(keys_of(entries)),
            Err(error) => hiers is Err && hiers->Err_0 == error,
        },
{
    let ghost items = hier_matches_of(found.deep_view());
    let ghost mut entries: Seq<(Seq<char>, Seq<Seq<char>>)> = Seq::empty();
    let mut hiers: Table<Vec<String>> = Table::new();
    let mut i: usize = 0;
    proof {
        assert(items.subrange(0, 0) =~= Seq::empty());
        assert(keys_of(entries) =~= Seq::<Seq<char>>::empty());
    }
    while i < found.len()
        invariant
            i <= found.len(),
            items == hier_matches_of(found.deep_view()),
            gathered(items.subrange(0, i as int)) == Ok::<
                Seq<(Seq<char>, Seq<Seq<char>>)>,
                ParseError,
            >(entries),
            hiers@ == map_of(entries),
            hiers.names() == distinct(keys_of(entries)),
        decreases found.len() - i,
    {
        proof {
            assert(items.subrange(0, i + 1).drop_last() =~= items.subrange(0, i as int));
            assert(items.subrange(0, i + 1).last() == hier_match_of(found.deep_view()[i as int]));
            assert(found.deep_view()[i as int] == found[i as int].deep_view());
        }
        match &found[i] {
            Some(groups) => {
                match hier_entry(groups) {
                    Ok(pair) => {
                        proof {
                            let longer = entries.push((pair.0@, pair.1.deep_view()));
                            assert(longer.drop_last() =~= entries);
                            assert(keys_of(longer).drop_last() =~= keys_of(entries));
                            entries = longer;
                        }
                        hiers.insert(pair.0, pair.1);
                    },
                    Err(error) => {
                        proof {
                            lemma_gathered_error_stays(items, i + 1);
                        }
                        return Err(error);
                    },
                }
            },
            None => {},
        }
        i += 1;
    }
    assert(items.subrange(0, i as int) =~= items);
    Ok(hiers)
}

/// Parses the lines of a hierarchy file into a table from superior HCC to
/// the HCCs that it suppresses: searches each line for the hierarchy pattern
/// and builds the table out of what was found.
pub fn parse_hier(lines: &Vec<String>) -> (hiers: Result<Table<Vec<String>>, ParseError>)
    ensures
        match gathered(hier_lines_of(lines.deep_view())) {
            Ok(entries) => hiers is Ok && hiers->Ok_0@ == map_of(entries)
                && hiers->Ok_0.names() == distinct(keys_of(entries)),
            Err(error) => hiers is Err && hiers->Err_0 == error,
        },
{
    let ghost items = hier_lines_of(lines.deep_view());
    let mut found: Vec<Option<Vec<Option<String>>>> = Vec::new();
    let mut i: usize = 0;
    assert(items.subrange(0, 0) =~= hier_matches_of(found.deep_view()));
    while i < lines.len()
        invariant
            i <= lines.len(),
            items == hier_lines_of(lines.deep_view()),
            items.subrange(0, i as int) == hier_matches_of(found.deep_view()),
        decreases lines.len() - i,
    {
        let ghost before = found.deep_view();
        proof {
            assert(items.subrange(0, i + 1) =~= items.subrange(0, i as int).push(
                hier_line_of(regex_captures(hier_pattern(), lines.deep_view()[i as int])),
            ));
            assert(items.subrange(0, i + 1).drop_last() =~= items.subrange(0, i as int));
        }
        match match_line(hier_pattern_text(), lines[i].as_str()) {
            Ok(groups) => {
                let ghost searched = groups.deep_view();
                found.push(groups);
                assert(found.deep_view() =~= before.push(searched));
                assert(hier_matches_of(found.deep_view()) =~= hier_matches_of(before).push(
                    hier_match_of(searched),
                ));
            },
            Err(error) => {
                let earlier = hiers_from_matches(&found);
                proof {
                    if gathered(items.subrange(0, i as int)) is Err {
                        lemma_gathered_error_stays(items, i as int);
                    } else {
                        lemma_gathered_error_stays(items, i + 1);
                    }
                }
                return match earlier {
                    Ok(_) => Err(error),
                    Err(first) => Err(first),
                };
            },
        }
        i += 1;
    }
    assert(items.subrange(0, i as int) =~= items);
    hiers_from_matches(&found)
}

/// The entry of a record of the diagnosis file: the diagnosis code is the
/// first field, the HCC is `HCC` and the second field.
pub open spec fn dx_entry_of(record: Seq<Seq<char>>) -> Result<
    Option<(Seq<char>, Seq<char>)>,
    ParseError,
> {
    if record.len() >= 2 {
        Ok(Some((record[0], "HCC"@ + record[1])))
    } else {
        Err(ParseError::MissingField)
    }
}

/// What the records of a diagnosis file yield, record by record.
pub open spec fn dx_records_of(records: Seq<Seq<Seq<char>>>) -> Seq<
    Result<Option<(Seq<char>, Seq<char>)>, ParseError>,
> {
    records.map_values(|record: Seq<Seq<char>>| dx_entry_of(record))
}

/// The map from diagnosis code to HCCs that a sequence of entries builds up:
/// each entry in turn adds its HCC at the end of the list of its code.
pub open spec fn grouped(entries: Seq<(Seq<char>, Seq<char>)>) -> Map<Seq<char>, Seq<Seq<char>>>
    decreases entries.len(),
{
    if entries.len() == 0 {
        Map::empty()
    } else {
        let before = grouped(entries.drop_last());
        before.insert(entries.last().0, listed(before, entries.last().0).push(entries.last().1))
    }
}

/// The delimiter of the diagnosis file: the tab character.
pub const DX_DELIMITER: u8 = 9;

/// Builds the table from diagnosis code to HCCs out of the records of a
/// diagnosis file. The codes keep the order of their first occurrence, the
/// HCCs of a code the order of their records.
pub fn dx_to_cc_from_records(records: &Vec<Vec<String>>) -> (dx_to_cc: Result<
    Table<Vec<String>>,
    ParseError,
>)
    ensures
        match gathered(dx_records_of(records.deep_view())) {
            Ok(entries) => dx_to_cc is Ok && dx_to_cc->Ok_0@ == grouped(entries)
                && dx_to_cc->Ok_0.names() == distinct(keys_of(entries)),
            Err(error) => dx_to_cc is Err && dx_to_cc->Err_0 == error,
        },
{
    let ghost items = dx_records_of(records.deep_view());
    let ghost mut entries: Seq<(Seq<char>, Seq<char>)> = Seq::empty();
    let mut table: Table<Vec<String>> = Table::new();
    let mut i: usize = 0;
    proof {
        assert(items.subrange(0, 0) =~= Seq::empty());
        assert(keys_of(entries) =~= Seq::<Seq<char>>::empty());
    }
    while i < records.len()
        invariant
            i <= records.len(),
            items == dx_records_of(records.deep_view()),
            gathered(items.subrange(0, i as int)) == Ok::<Seq<(Seq<char>, Seq<char>)>, ParseError>(
                entries,
            ),
            table@ == grouped(entries),
            table.names() == distinct(keys_of(entries)),
        decreases records.len() - i,
    {
        let record = &records[i];
        proof {
            assert(items.subrange(0, i + 1).drop_last() =~= items.subrange(0, i as int));
            assert(items.subrange(0, i + 1).last() == dx_entry_of(records.deep_view()[i as int]));
            assert(records.deep_view()[i as int] == record.deep_view());
        }
        if record.len() < 2 {
            proof {
                lemma_gathered_error_stays(items, i + 1);
            }
            return Err(ParseError::MissingField);
        }
        let dx = record[0].clone();
        let mut cc = String::from_str("HCC");
        cc.append(record[1].as_str());
        assert(dx@ == record.deep_view()[0]);
        assert(cc@ == "HCC"@ + record.deep_view()[1]);
        let mut list = match table.get(dx.as_str()) {
            Some(list) => clone_names(list),
            None => Vec::new(),
        };
        assert(list.deep_view() =~= listed(table@, dx@));
        proof {
            let longer = entries.push((dx@, cc@));
            assert(longer.drop_last() =~= entries);
            assert(keys_of(longer).drop_last() =~= keys_of(entries));
            entries = longer;
        }
        push_name(&mut list, cc);
        table.insert(dx, list);
        i += 1;
    }
    assert(items.subrange(0, i as int) =~= items);
    Ok(table)
}

/// Parses a diagnosis file: tab-delimited records without a header line,
/// each a diagnosis code and a CC number.
pub fn parse_dx_to_cc(data: &[u8]) -> (dx_to_cc: Result<Table<Vec<String>>, ParseError>)
    ensures
        match csv_records(data@, DX_DELIMITER, false) {
            None => dx_to_cc is Err && dx_to_cc->Err_0 == ParseError::Records,
            Some(records) => match gathered(dx_records_of(records)) {
                Ok(entries) => dx_to_cc is Ok && dx_to_cc->Ok_0@ == grouped(entries)
                    && dx_to_cc->Ok_0.names() == distinct(keys_of(entries)),
                Err(error) => dx_to_cc is Err && dx_to_cc->Err_0 == error,
            },
        },
{
    match read_records(data, DX_DELIMITER, false) {
        Ok(records) => dx_to_cc_from_records(&records),
        Err(_) => Err(ParseError::Records),
    }
}

/// The fields of a coefficient file, from its header line and its value
/// line: both are split at the commas; each name is trimmed and loses its
/// double quotes, each value is trimmed. The two lines must have the same
/// number of fields.
pub open spec fn coefficient_fields_of(headers: Seq<char>, values: Seq<char>) -> Result<
    Seq<(Seq<char>, Seq<char>)>,
    ParseError,
> {
    let names = split_on(headers, ',');
    let texts = split_on(values, ',');
    if names.len() != texts.len() {
        Err(ParseError::LengthMismatch)
    } else {
        Ok(Seq::new(names.len(), |i: int| (without(trimmed(names[i]), '"'), trimmed(texts[i]))))
    }
}

/// Parses the two lines of a coefficient file into pairs of variable name and
/// value text, in the order of the file. The values are left as text.
pub fn parse_hcc_coefficients(headers: &str, values: &str) -> (fields: Result<
    Vec<(String, String)>,
    ParseError,
>)
    ensures
        match coefficient_fields_of(headers@, values@) {
            Ok(pairs) => fields is Ok && fields->Ok_0.deep_view() == pairs,
            Err(error) => fields is Err && fields->Err_0 == error,
        },
{
    let names = split(headers, ',');
    let texts = split(values, ',');
    if names.len() != texts.len() {
        return Err(ParseError::LengthMismatch);
    }
    let mut fields: Vec<(String, String)> = Vec::new();
    let mut i: usize = 0;
    while i < names.len()
        invariant
            i <= names.len(),
            names.len() == texts.len(),
            names.deep_view() == split_on(headers@, ','),
            texts.deep_view() == split_on(values@, ','),
            fields.len() == i,
            forall|k: int|
                0 <= k < i ==> #[trigger] fields.deep_view()[k] == (
                    without(trimmed(names.deep_view()[k]), '"'),
                    trimmed(texts.deep_view()[k]),
                ),
        decreases names.len() - i,
    {
        let ghost before = fields.deep_view();
        let name = remove_char(trim(names[i].as_str()).as_str(), '"');
        let text = trim(texts[i].as_str());
        fields.push((name, text));
        assert(fields.deep_view() =~= before.push(
            (without(trimmed(names.deep_view()[i as int]), '"'), trimmed(texts.deep_view()[i as int])),
        ));
        i += 1;
    }
    assert(fields.deep_view() =~= coefficient_fields_of(headers@, values@)->Ok_0);
    Ok(fields)
}

/// The field of a row of a two-column coefficient file: the first column is
/// the name, trimmed and without double quotes, the second the value, trimmed.
pub open spec fn coefficient_row_of(record: Seq<Seq<char>>) -> Result<
    Option<(Seq<char>, Seq<char>)>,
    ParseError,
> {
    if record.len() >= 2 {
        Ok(Some((without(trimmed(record[0]), '"'), trimmed(record[1]))))
    } else {
        Err(ParseError::MissingField)
    }
}

/// What the rows of a two-column coefficient file yield, row by row.
pub open spec fn coefficient_rows_of(records: Seq<Seq<Seq<char>>>) -> Seq<
    Result<Option<(Seq<char>, Seq<char>)>, ParseError>,
> {
    records.map_values(|record: Seq<Seq<char>>| coefficient_row_of(record))
}

/// The delimiter of a two-column coefficient file: the comma.
pub const COEFFICIENT_DELIMITER: u8 = 44;

/// Builds the pairs of variable name and value text out of the rows of a
/// two-column coefficient file, in the order of the rows.
pub fn coefficients_from_records(records: &Vec<Vec<String>>) -> (fields: Result<
    Vec<(String, String)>,
    ParseError,
>)
    ensures
        match gathered(coefficient_rows_of(records.deep_view())) {
            Ok(pairs) => fields is Ok && fields->Ok_0.deep_view() == pairs,
            Err(error) => fields is Err && fields->Err_0 == error,
        },
{
    let ghost items = coefficient_rows_of(records.deep_view());
    let mut fields: Vec<(String, String)> = Vec::new();
    let mut i: usize = 0;
    proof {
        assert(items.subrange(0, 0) =~= Seq::empty());
        assert(fields.deep_view() =~= Seq::<(Seq<char>, Seq<char>)>::empty());
    }
    while i < records.len()
        invariant
            i <= records.len(),
            items == coefficient_rows_of(records.deep_view()),
            gathered(items.subrange(0, i as int)) == Ok::<Seq<(Seq<char>, Seq<char>)>, ParseError>(
                fields.deep_view(),
            ),
        decreases records.len() - i,
    {
        let ghost before = fields.deep_view();
        let record = &records[i];
        proof {
            assert(items.subrange(0, i + 1).drop_last() =~= items.subrange(0, i as int));
            assert(items.subrange(0, i + 1).last() == coefficient_row_of(
                records.deep_view()[i as int],
            ));
            assert(records.deep_view()[i as int] == record.deep_view());
        }
        if record.len() < 2 {
            proof {
                lemma_gathered_error_stays(items, i + 1);
            }
            return Err(ParseError::MissingField);
        }
        let name = remove_char(trim(record[0].as_str()).as_str(), '"');
        let text = trim(record[1].as_str());
        assert(record.deep_view()[0] == record[0]@);
        assert(record.deep_view()[1] == record[1]@);
        fields.push((name, text));
        assert(fields.deep_view() =~= before.push(
            (without(trimmed(record.deep_view()[0]), '"'), trimmed(record.deep_view()[1])),
        ));
        i += 1;
    }
    assert(items.subrange(0, i as int) =~= items);
    Ok(fields)
}

/// Parses a coefficient file of the two-column kind: comma-delimited rows
/// without a header line, each a variable name and a value.
pub fn parse_hcc_coefficient_rows(data: &[u8]) -> (fields: Result<
    Vec<(String, String)>,
    ParseError,
>)
    ensures
        match csv_records(data@, COEFFICIENT_DELIMITER, false) {
            None => fields is Err && fields->Err_0 == ParseError::Records,
            Some(records) => match gathered(coefficient_rows_of(records)) {
                Ok(pairs) => fields is Ok && fields->Ok_0.deep_view() == pairs,
                Err(error) => fields is Err && fields->Err_0 == error,
            },
        },
{
    match read_records(data, COEFFICIENT_DELIMITER, false) {
        Ok(records) => coefficients_from_records(&records),
        Err(_) => Err(ParseError::Records),
    }
}

} // verus!
