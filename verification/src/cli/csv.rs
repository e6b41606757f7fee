//! The options of the CSV conversion.
use crate::bytes::str_equal;
use vstd::prelude::*;
use vstd::string::StringExecFns;

verus! {

/// The text formats into which a table is converted.
#[derive(Debug, Clone, Copy, PartialEq, Eq, Structural)]
pub enum OutputFormat {
    Json,
    Yaml,
}

/// A token that names no output format.
#[derive(Debug, Clone, Copy, PartialEq, Eq, Structural)]
pub struct UnsupportedOutputFormat;

/// What the conversion was asked to do.
#[derive(Debug, Clone)]
pub struct CsvOps {
    /// The file that holds the table.
    pub input: String,
    /// The file to write, if the caller named one.
    pub output: Option<String>,
    /// The format to write.
    pub format: OutputFormat,
    /// Whether the table's first line holds its column names.
    pub header: bool,
    /// The character between two fields.
    pub delimiter: char,
}

/// The token that selects `format`, which is also the ending of the files
/// written in it.
pub open spec fn output_format_token(format: OutputFormat) -> Seq<char> {
    match format {
        OutputFormat::Json => "json"@,
        OutputFormat::Yaml => "yaml"@,
    }
}

/// The format that `token` selects.
pub open spec fn output_format_of(token: Seq<char>) -> Result<OutputFormat, UnsupportedOutputFormat> {
    if token == "json"@ {
        Ok(OutputFormat::Json)
    } else if token == "yaml"@ {
        Ok(OutputFormat::Yaml)
    } else {
        Err(UnsupportedOutputFormat)
    }
}

/// Reads a format token.
pub fn parse_format(format_str: &str) -> (outcome: Result<OutputFormat, UnsupportedOutputFormat>)
    ensures
        outcome == output_format_of(format_str@),
{
    if str_equal(format_str, "json") {
        Ok(OutputFormat::Json)
    } else if str_equal(format_str, "yaml") {
        Ok(OutputFormat::Yaml)
    } else {
        Err(UnsupportedOutputFormat)
    }
}

impl OutputFormat {
    /// The token that selects this format.
    pub fn token(self) -> (token: &'static str)
        ensures
            token@ == output_format_token(self),
    {
        match self {
            OutputFormat::Json => "json",
            OutputFormat::Yaml => "yaml",
        }
    }
}

impl UnsupportedOutputFormat {
    /// The complaint in words.
    pub fn message(&self) -> (text: &'static str)
        ensures
            text@ == "UnSupported format."@,
    {
        "UnSupported format."
    }
}

impl std::str::FromStr for OutputFormat {
    type Err = UnsupportedOutputFormat;

    fn from_str(s: &str) -> (outcome: Result<Self, Self::Err>)
        ensures
            outcome == output_format_of(s@),
    {
        parse_format(s)
    }
}

/// The file that a conversion writes: the one that was named, else the input
/// file's name with a dot and the format's token behind it.
pub open spec fn output_path_spec(
    input: Seq<char>,
    output: Option<Seq<char>>,
    format: OutputFormat,
) -> Seq<char> {
    match output {
        Some(path) => path,
        None => input + "."@ + output_format_token(format),
    }
}

impl CsvOps {
    /// The file that this conversion writes.
    pub fn output_path(&self) -> (path: String)
        ensures
            path@ == output_path_spec(
                self.input@,
                match self.output {
                    Some(named) => Some(named@),
                    None => None,
                },
                self.format,
            ),
    {
        match &self.output {
            Some(named) => named.clone(),
            None => {
                let mut path = self.input.clone();
                path.append(".");
                path.append(self.format.token());
                path
            },
        }
    }
}

/// A format's token selects that format again.
pub proof fn output_format_token_round_trip(format: OutputFormat)
    ensures
        output_format_of(output_format_token(format)) == Ok::<OutputFormat, UnsupportedOutputFormat>(
            format,
        ),
{
    reveal_strlit("json");
    reveal_strlit("yaml");
    assert("json"@[0] != "yaml"@[0]);
}

} // verus!
