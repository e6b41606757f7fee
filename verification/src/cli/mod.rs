//! What the command line asks for, and the checks on its arguments.
pub mod base64;
pub mod csv;
pub mod text;

pub use self::base64::Base64Format;
pub use self::csv::{CsvOps, OutputFormat};
pub use self::text::TextSignFormat;

use crate::bytes::str_equal;
use vstd::prelude::*;
use vstd::string::StringExecFns;

verus! {

/// The name that stands for the standard input where a file is asked for.
pub const STANDARD_INPUT: &'static str = "-";

/// An outcome with its name, and its complaint, replaced by their characters.
pub open spec fn name_outcome(outcome: Result<String, &'static str>) -> Result<Seq<char>, Seq<char>> {
    match outcome {
        Ok(name) => Ok(name@),
        Err(complaint) => Err(complaint@),
    }
}

/// What checking an input file's name gives: the name, where it stands for
/// the standard input or a file by that name exists.
pub open spec fn verify_file_spec(filename: Seq<char>, exists: bool) -> Result<Seq<char>, Seq<char>> {
    if filename == STANDARD_INPUT@ || exists {
        Ok(filename)
    } else {
        Err("File does not exist"@)
    }
}

/// Checks the name of an input file. The caller says whether a file by that
/// name exists.
pub fn verify_file(filename: &str, exists: bool) -> (outcome: Result<String, &'static str>)
    ensures
        name_outcome(outcome) == verify_file_spec(filename@, exists),
{
    if str_equal(filename, STANDARD_INPUT) || exists {
        Ok(String::from_str(filename))
    } else {
        Err("File does not exist")
    }
}

/// What checking a directory's name gives: the name, where a directory by
/// that name exists.
pub open spec fn verify_path_spec(path: Seq<char>, is_directory: bool) -> Result<
    Seq<char>,
    Seq<char>,
> {
    if is_directory {
        Ok(path)
    } else {
        Err("Path does not exist or is not a directory"@)
    }
}

/// Checks the name of a directory. The caller says whether something by that
/// name exists and is a directory.
pub fn verify_path(path: &str, is_directory: bool) -> (outcome: Result<String, &'static str>)
    ensures
        name_outcome(outcome) == verify_path_spec(path@, is_directory),
{
    if is_directory {
        Ok(String::from_str(path))
    } else {
        Err("Path does not exist or is not a directory")
    }
}

/// What checking the name of a file that must exist gives: the name, or a
/// complaint that holds it.
pub open spec fn verify_file_exists_spec(file_name: Seq<char>, exists: bool) -> Result<
    Seq<char>,
    Seq<char>,
> {
    if exists {
        Ok(file_name)
    } else {
        Err("File "@ + file_name + " does not exist"@)
    }
}

/// Checks the name of a file that must exist. The caller says whether it
/// does.
pub fn verify_file_exists(file_name: &str, exists: bool) -> (outcome: Result<String, String>)
    ensures
        match outcome {
            Ok(name) => verify_file_exists_spec(file_name@, exists) == Ok::<Seq<char>, Seq<char>>(
                name@,
            ),
            Err(complaint) => verify_file_exists_spec(file_name@, exists) == Err::<
                Seq<char>,
                Seq<char>,
            >(complaint@),
        },
{
    if exists {
        Ok(String::from_str(file_name))
    } else {
        let mut complaint = String::from_str("File ");
        complaint.append(file_name);
        complaint.append(" does not exist");
        Err(complaint)
    }
}

} // verus!
