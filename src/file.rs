//! The file source's decisions: which format a path names, when a file is
//! refused, and how a decoder's complaint is reported. Reading the file and
//! decoding it are left to the caller.

use vstd::prelude::*;

use crate::config::{parse_error, ConfigError, ConfigFormat, ErrorView};
use crate::text::{lower_of, lowercase, text_eq};

verus! {

/// The format that a lowercased extension names.
pub open spec fn format_spec(ext: Seq<char>) -> Option<ConfigFormat> {
    if ext == "toml"@ {
        Some(ConfigFormat::Toml)
    } else if ext == "json"@ {
        Some(ConfigFormat::Json)
    } else if ext == "yaml"@ || ext == "yml"@ {
        Some(ConfigFormat::Yaml)
    } else {
        None
    }
}

/// What `Path::extension` gives for a path: the text after the last `.` of
/// its final component, if that component has one not at its start.
pub uninterp spec fn extension_of(path: Seq<char>) -> Option<Seq<char>>;

/// Relies on `Path::extension`, whose result depends on the path alone; the
/// extension holds no `.`.
#[verifier::external_body]
fn path_extension(path: &str) -> (r: Option<String>)
    ensures
        match r {
            Some(e) => extension_of(path@) == Some(e@),
            None => extension_of(path@) is None,
        },
        r matches Some(e) ==> !e@.contains('.'),
{
    std::path::Path::new(path).extension().and_then(|e| e.to_str()).map(|e| e.to_string())
}

/// The format that an extension already in lowercase names.
pub fn format_for_lowercase(ext: &str) -> (r: Option<ConfigFormat>)
    ensures
        r == format_spec(ext@),
{
    if text_eq(ext, "toml") {
        Some(ConfigFormat::Toml)
    } else if text_eq(ext, "json") {
        Some(ConfigFormat::Json)
    } else if text_eq(ext, "yaml") || text_eq(ext, "yml") {
        Some(ConfigFormat::Yaml)
    } else {
        None
    }
}

/// The format that an extension names, in any case.
pub fn format_from_extension(ext: &str) -> (r: Option<ConfigFormat>)
    ensures
        r == format_spec(lower_of(ext@)),
{
    let lower = lowercase(ext);
    format_for_lowercase(lower.as_str())
}

/// The format that a path's extension names, in any case; `None` for a path
/// without an extension or with another one.
pub fn detect_format_from_extension(file_path: &str) -> (r: Option<ConfigFormat>)
    ensures
        r == match extension_of(file_path@) {
            Some(e) => format_spec(lower_of(e)),
            None => None,
        },
{
    match path_extension(file_path) {
        Some(ext) => format_from_extension(ext.as_str()),
        None => None,
    }
}

/// Which format a configuration file is decoded with, or why it is refused:
/// a missing file is reported first, then an unknown format.
pub open spec fn file_check_spec(path: Seq<char>, exists: bool, format: Option<ConfigFormat>) -> Result<
    ConfigFormat,
    ErrorView,
> {
    if !exists {
        Err(ErrorView::FileNotFound(path))
    } else {
        match format {
            Some(f) => Ok(f),
            None => Err(ErrorView::ParseError("unsupported file format"@)),
        }
    }
}

/// The format to decode a configuration file with, given whether the file
/// exists and the format its path names.
pub fn check_config_file(path: &str, exists: bool, format: Option<ConfigFormat>) -> (r: Result<
    ConfigFormat,
    ConfigError,
>)
    ensures
        (match r {
            Ok(f) => Ok(f),
            Err(e) => Err(e@),
        }) == file_check_spec(path@, exists, format),
{
    if !exists {
        return Err(ConfigError::FileNotFound(String::from_str(path)));
    }
    match format {
        Some(f) => Ok(f),
        None => Err(parse_error("unsupported file format")),
    }
}

/// The name a decoder error is reported under.
pub open spec fn decoder_label(format: ConfigFormat) -> Seq<char> {
    match format {
        ConfigFormat::Toml => "TOML parse error: "@,
        ConfigFormat::Json => "JSON parse error: "@,
        ConfigFormat::Yaml => "YAML parse error: "@,
    }
}

/// The error for a file whose text the decoder of `format` refused with
/// `diagnostic`.
pub fn decode_error(format: ConfigFormat, diagnostic: &str) -> (e: ConfigError)
    ensures
        e@ == ErrorView::ParseError(decoder_label(format) + diagnostic@),
{
    let label = match format {
        ConfigFormat::Toml => String::from_str("TOML parse error: "),
        ConfigFormat::Json => String::from_str("JSON parse error: "),
        ConfigFormat::Yaml => String::from_str("YAML parse error: "),
    };
    ConfigError::ParseError(label.concat(diagnostic))
}

} // verus!
