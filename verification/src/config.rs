//! Choosing how to read a configuration file from the extension of its
//! name.

use vstd::prelude::*;

verus! {

/// The formats that a configuration file can be in.
#[derive(Debug, Copy, Clone, PartialEq, Eq, Structural)]
pub enum Format {
    Json,
    Yaml,
}

/// Why no format could be chosen.
#[derive(Debug, Copy, Clone, PartialEq, Eq, Structural)]
pub enum FormatError {
    /// The file name has an extension that stands for no format.
    UnknownExtension,
    /// The file name has no extension.
    NoExtension,
}

/// The format that `extension` stands for: `json` for JSON, `yml` for YAML.
pub open spec fn format_of(extension: Option<Seq<char>>) -> Result<Format, FormatError> {
    match extension {
        Some(ext) => if ext == "json"@ {
            Ok(Format::Json)
        } else if ext == "yml"@ {
            Ok(Format::Yaml)
        } else {
            Err(FormatError::UnknownExtension)
        },
        None => Err(FormatError::NoExtension),
    }
}

/// Whether two strings hold the same text.
fn same_text(a: &str, b: &str) -> (same: bool)
    ensures
        same == (a@ == b@),
{
    let a = a.to_owned();
    let b = b.to_owned();
    a == b
}

/// Chooses the format for a file from the extension of its name.
pub fn select_format(extension: Option<&str>) -> (r: Result<Format, FormatError>)
    ensures
        r == format_of(
            match extension {
                Some(ext) => Some(ext@),
                None => None,
            },
        ),
{
    match extension {
        Some(ext) => {
            if same_text(ext, "json") {
                Ok(Format::Json)
            } else if same_text(ext, "yml") {
                Ok(Format::Yaml)
            } else {
                Err(FormatError::UnknownExtension)
            }
        },
        None => Err(FormatError::NoExtension),
    }
}

} // verus!
