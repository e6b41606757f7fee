//! Converting a table of comma-separated values into JSON or YAML text.
//!
//! The table is read by the `csv` crate and the text is written by
//! `serde_json` or `serde_yaml`; what they return is named by the spec
//! functions without a body below and taken on trust. Between the two, every
//! line of the table becomes a record that pairs each column's name with the
//! line's field in that column, which is proved.
use crate::cli::OutputFormat;
use vstd::prelude::*;

verus! {

/// The column names and the lines that the `csv` crate reads from `input`
/// with its default settings, if it takes the input.
pub uninterp spec fn csv_table(input: Seq<u8>) -> Option<(Seq<Seq<char>>, Seq<Seq<Seq<char>>>)>;

/// The text that `serde_json` writes, indented, for the list of the objects
/// gathered from `records`, if it writes one.
pub uninterp spec fn json_pretty_text(records: Seq<Seq<(Seq<char>, Seq<char>)>>) -> Option<
    Seq<char>,
>;

/// The text that `serde_yaml` writes for the list of the mappings gathered
/// from `records`, if it writes one.
pub uninterp spec fn yaml_text(records: Seq<Seq<(Seq<char>, Seq<char>)>>) -> Option<Seq<char>>;

/// The error with which the `csv` crate turns a table down.
#[verifier::external_type_specification]
#[verifier::external_body]
pub struct ExCsvError(csv::Error);

/// The error of `serde_json`.
#[verifier::external_type_specification]
#[verifier::external_body]
pub struct ExJsonError(serde_json::Error);

/// The error of `serde_yaml`.
#[verifier::external_type_specification]
#[verifier::external_body]
pub struct ExYamlError(serde_yaml::Error);

/// Why a table was not converted.
#[derive(Debug, Clone, Copy, PartialEq, Eq, Structural)]
pub enum CsvError {
    /// The input is no table: a line has another number of fields than the
    /// first, or a field is not UTF-8.
    InvalidTable,
    /// The records could not be written in the chosen format.
    Unwritable,
}

/// A line's fields under the column names: the first field under the first
/// name and so on, as far as both reach.
pub open spec fn zipped(names: Seq<Seq<char>>, fields: Seq<Seq<char>>) -> Seq<
    (Seq<char>, Seq<char>),
> {
    Seq::new(
        if names.len() <= fields.len() {
            names.len()
        } else {
            fields.len()
        },
        |i: int| (names[i], fields[i]),
    )
}

/// The records of a table: each line's fields under the column names.
pub open spec fn records_spec(names: Seq<Seq<char>>, lines: Seq<Seq<Seq<char>>>) -> Seq<
    Seq<(Seq<char>, Seq<char>)>,
> {
    lines.map_values(|fields: Seq<Seq<char>>| zipped(names, fields))
}

/// The text of `records` in `format`, if the format's writer gives one.
pub open spec fn written_text(
    records: Seq<Seq<(Seq<char>, Seq<char>)>>,
    format: OutputFormat,
) -> Option<Seq<char>> {
    match format {
        OutputFormat::Json => json_pretty_text(records),
        OutputFormat::Yaml => yaml_text(records),
    }
}

/// What writing `records` in `format` gives.
pub open spec fn write_spec(
    records: Seq<Seq<(Seq<char>, Seq<char>)>>,
    format: OutputFormat,
) -> Result<Seq<char>, CsvError> {
    match written_text(records, format) {
        Some(text) => Ok(text),
        None => Err(CsvError::Unwritable),
    }
}

/// What converting `input` into `format` gives.
pub open spec fn convert_spec(input: Seq<u8>, format: OutputFormat) -> Result<Seq<char>, CsvError> {
    match csv_table(input) {
        Some(table) => write_spec(records_spec(table.0, table.1), format),
        None => Err(CsvError::InvalidTable),
    }
}

/// An outcome with its text replaced by the text's characters.
pub open spec fn written_outcome(outcome: Result<String, CsvError>) -> Result<Seq<char>, CsvError> {
    match outcome {
        Ok(text) => Ok(text@),
        Err(error) => Err(error),
    }
}

/// Reads `input` with `csv::Reader::from_reader`: the column names from
/// `headers`, the lines from `records`, each field copied into a `String`.
///
/// Trusted: whether the input is taken, and what is read from it, depend on
/// the input alone.
#[verifier::external_body]
fn read_table(input: &[u8]) -> (outcome: Result<(Vec<String>, Vec<Vec<String>>), csv::Error>)
    ensures
        match outcome {
            Ok(table) => csv_table(input@) == Some((table.0.deep_view(), table.1.deep_view())),
            Err(_) => csv_table(input@) is None,
        },
{
    let mut reader = csv::Reader::from_reader(input);
    let names = reader.headers()?.iter().map(String::from).collect();
    let mut lines = Vec::new();
    for record in reader.records() {
        lines.push(record?.iter().map(String::from).collect());
    }
    Ok((names, lines))
}

/// Gathers each record into a `serde_json::Value`, as its `FromIterator`
/// for pairs does, and calls `serde_json::to_string_pretty` on the list.
///
/// Trusted: whether a text is written, and the text, depend on the records
/// alone.
#[verifier::external_body]
fn write_json(records: &Vec<Vec<(String, String)>>) -> (outcome: Result<String, serde_json::Error>)
    ensures
        match outcome {
            Ok(text) => json_pretty_text(records.deep_view()) == Some(text@),
            Err(_) => json_pretty_text(records.deep_view()) is None,
        },
{
    let values: Vec<serde_json::Value> =
        records.iter().map(|record| record.iter().cloned().collect()).collect();
    serde_json::to_string_pretty(&values)
}

/// Gathers each record into a `serde_json::Value`, as its `FromIterator`
/// for pairs does, and calls `serde_yaml::to_string` on the list.
///
/// Trusted: whether a text is written, and the text, depend on the records
/// alone.
#[verifier::external_body]
fn write_yaml(records: &Vec<Vec<(String, String)>>) -> (outcome: Result<String, serde_yaml::Error>)
    ensures
        match outcome {
            Ok(text) => yaml_text(records.deep_view()) == Some(text@),
            Err(_) => yaml_text(records.deep_view()) is None,
        },
{
    let values: Vec<serde_json::Value> =
        records.iter().map(|record| record.iter().cloned().collect()).collect();
    serde_yaml::to_string(&values)
}

/// Pairs each column name with the line's field in that column.
pub fn pair_fields(names: &Vec<String>, fields: &Vec<String>) -> (pairs: Vec<(String, String)>)
    ensures
        pairs.deep_view() == zipped(names.deep_view(), fields.deep_view()),
{
    let count = if names.len() <= fields.len() {
        names.len()
    } else {
        fields.len()
    };
    let mut pairs: Vec<(String, String)> = Vec::new();
    let mut i: usize = 0;
    while i < count
        invariant
            i <= count,
            count <= names@.len(),
            count <= fields@.len(),
            pairs@.len() == i,
            forall|j: int| 0 <= j < i ==> (#[trigger] pairs@[j]).0@ == names@[j]@ && pairs@[j].1@ == fields@[j]@,
        decreases count - i,
    {
        pairs.push((names[i].clone(), fields[i].clone()));
        i += 1;
    }
    assert(pairs.deep_view() =~= zipped(names.deep_view(), fields.deep_view()));
    pairs
}

/// The records of a table: one for each line, in the table's order.
pub fn table_records(names: &Vec<String>, lines: &Vec<Vec<String>>) -> (records: Vec<
    Vec<(String, String)>,
>)
    ensures
        records.deep_view() == records_spec(names.deep_view(), lines.deep_view()),
{
    let mut records: Vec<Vec<(String, String)>> = Vec::new();
    let mut i: usize = 0;
    while i < lines.len()
        invariant
            i <= lines@.len(),
            records@.len() == i,
            forall|j: int| 0 <= j < i ==> (#[trigger] records@[j]).deep_view() == zipped(
                names.deep_view(),
                lines@[j].deep_view(),
            ),
        decreases lines@.len() - i,
    {
        records.push(pair_fields(names, &lines[i]));
        i += 1;
    }
    assert(records.deep_view() =~= records_spec(names.deep_view(), lines.deep_view()));
    records
}

/// Writes `records` as a list in `format`: indented JSON, or YAML.
pub fn write_records(records: &Vec<Vec<(String, String)>>, format: OutputFormat) -> (outcome:
    Result<String, CsvError>)
    ensures
        written_outcome(outcome) == write_spec(records.deep_view(), format),
{
    match format {
        OutputFormat::Json => match write_json(records) {
            Ok(text) => Ok(text),
            Err(_) => Err(CsvError::Unwritable),
        },
        OutputFormat::Yaml => match write_yaml(records) {
            Ok(text) => Ok(text),
            Err(_) => Err(CsvError::Unwritable),
        },
    }
}

/// Converts the table in `input`, whose first line holds the column names,
/// into the text of a list with one record for each further line.
pub fn process_csv(input: &[u8], format: OutputFormat) -> (outcome: Result<String, CsvError>)
    ensures
        written_outcome(outcome) == convert_spec(input@, format),
{
    match read_table(input) {
        Ok(table) => {
            let records = table_records(&table.0, &table.1);
            write_records(&records, format)
        },
        Err(_) => Err(CsvError::InvalidTable),
    }
}

} // verus!
