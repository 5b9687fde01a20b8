use crate::cli::Format;
use crate::error::{spec_error_value, CliError, ErrorValue, ErrorValueView};
use std::collections::BTreeMap;
use vstd::prelude::*;
use vstd::utf8::encode_utf8;

verus! {

/// A hexadecimal digit, lower case, for a value below sixteen.
pub open spec fn hex_digit(n: int) -> char {
    if n < 10 {
        ('0' as int + n) as char
    } else {
        ('a' as int + n - 10) as char
    }
}

/// How `serde_json` writes one character inside a string: the quote and the
/// backslash, and the control characters below U+0020, are escaped (with the
/// short escapes `\b \t \n \f \r` where they exist, else as `\u00XX`);
/// every other character is written as it is.
pub open spec fn json_escaped_char(c: char) -> Seq<char> {
    if c == '"' {
        seq!['\\', '"']
    } else if c == '\\' {
        seq!['\\', '\\']
    } else if c == '\u{8}' {
        seq!['\\', 'b']
    } else if c == '\t' {
        seq!['\\', 't']
    } else if c == '\n' {
        seq!['\\', 'n']
    } else if c == '\u{c}' {
        seq!['\\', 'f']
    } else if c == '\r' {
        seq!['\\', 'r']
    } else if (c as int) < 0x20 {
        seq!['\\', 'u', '0', '0', hex_digit((c as int) / 16), hex_digit((c as int) % 16)]
    } else {
        seq![c]
    }
}

/// The characters of `s`, each written as `serde_json` writes it inside a string.
pub open spec fn json_escaped(s: Seq<char>) -> Seq<char>
    decreases s.len(),
{
    if s.len() == 0 {
        seq![]
    } else {
        json_escaped_char(s[0]) + json_escaped(s.drop_first())
    }
}

/// The JSON string literal that `serde_json` writes for `s`.
pub open spec fn json_quoted(s: Seq<char>) -> Seq<char> {
    seq!['"'] + json_escaped(s) + seq!['"']
}

/// The JSON text that `serde_json::to_string` gives for a map with the single
/// entry `key` => the string `text`: compact, with no spaces.
pub open spec fn json_text_entry(key: Seq<char>, text: Seq<char>) -> Seq<char> {
    seq!['{'] + json_quoted(key) + seq![':'] + json_quoted(text) + seq!['}']
}

/// The JSON text that `serde_json::to_string` gives for a map with the single
/// entry `key` => (a map with the single entry `inner` => the string `text`).
pub open spec fn json_object_entry(key: Seq<char>, inner: Seq<char>, text: Seq<char>) -> Seq<char> {
    seq!['{'] + json_quoted(key) + seq![':'] + json_text_entry(inner, text) + seq!['}']
}

/// The YAML text that `serde_yaml::to_string` gives for a map with the single
/// entry `key` => the string `text`.
pub uninterp spec fn yaml_text_entry(key: Seq<char>, text: Seq<char>) -> Seq<char>;

/// The YAML text that `serde_yaml::to_string` gives for a map with the single
/// entry `key` => (a map with the single entry `inner` => the string `text`).
pub uninterp spec fn yaml_object_entry(key: Seq<char>, inner: Seq<char>, text: Seq<char>) -> Seq<char>;

/// Calls `serde_json::to_string` on the map `{key: text}` and returns the
/// text, `json_text_entry(key, text)`.  The serialiser fails only where a
/// value's `Serialize` fails or a map key is not a string (its documentation),
/// neither of which a map of strings does, so it succeeds.
#[verifier::external_body]
fn json_text_map(key: &str, text: &str) -> (r: Result<String, String>)
    ensures
        r is Ok,
        r matches Ok(s) ==> s@ == json_text_entry(key@, text@),
{
    match serde_json::to_string(&BTreeMap::from([(key, text)])) {
        Ok(s) => Ok(s),
        Err(e) => Err(e.to_string()),
    }
}

/// Calls `serde_json::to_string` on the map `{key: {inner: text}}` and
/// returns the text, `json_object_entry(key, inner, text)`.  The serialiser
/// fails only where a value's `Serialize` fails or a map key is not a string
/// (its documentation), neither of which maps of strings do, so it succeeds.
#[verifier::external_body]
fn json_object_map(key: &str, inner: &str, text: &str) -> (r: Result<String, String>)
    ensures
        r is Ok,
        r matches Ok(s) ==> s@ == json_object_entry(key@, inner@, text@),
{
    match serde_json::to_string(&BTreeMap::from([(key, BTreeMap::from([(inner, text)]))])) {
        Ok(s) => Ok(s),
        Err(e) => Err(e.to_string()),
    }
}

/// The number of bytes of the UTF-8 encoding of `s`.
pub open spec fn utf8_len(s: Seq<char>) -> int {
    encode_utf8(s).len() as int
}

/// Whether `s` can be a scalar of a YAML document: the emitter under
/// `serde_yaml` takes each scalar's length in bytes as an `i32`.
pub open spec fn fits_yaml_scalar(s: Seq<char>) -> bool {
    utf8_len(s) <= i32::MAX
}

/// Calls `serde_yaml::to_string` on the map `{key: text}` and returns the
/// text, `yaml_text_entry(key, text)`.  The serialiser fails only where a
/// value's `Serialize` fails (its documentation), which a map of strings does
/// not; its emitter takes each scalar's byte length as an `i32`, so the key
/// and the text must each be at most `i32::MAX` bytes long.  Within that
/// bound the call succeeds.
#[verifier::external_body]
fn yaml_text_map(key: &str, text: &str) -> (r: Result<String, String>)
    requires
        fits_yaml_scalar(key@),
        fits_yaml_scalar(text@),
    ensures
        r is Ok,
        r matches Ok(s) ==> s@ == yaml_text_entry(key@, text@),
{
    match serde_yaml::to_string(&BTreeMap::from([(key, text)])) {
        Ok(s) => Ok(s),
        Err(e) => Err(e.to_string()),
    }
}

/// Calls `serde_yaml::to_string` on the map `{key: {inner: text}}` and
/// returns the text, `yaml_object_entry(key, inner, text)`.  The serialiser
/// fails only where a value's `Serialize` fails (its documentation), which
/// maps of strings do not; its emitter takes each scalar's byte length as an
/// `i32`, so the keys and the text must each be at most `i32::MAX` bytes
/// long.  Within that bound the call succeeds.
#[verifier::external_body]
fn yaml_object_map(key: &str, inner: &str, text: &str) -> (r: Result<String, String>)
    requires
        fits_yaml_scalar(key@),
        fits_yaml_scalar(inner@),
        fits_yaml_scalar(text@),
    ensures
        r is Ok,
        r matches Ok(s) ==> s@ == yaml_object_entry(key@, inner@, text@),
{
    match serde_yaml::to_string(&BTreeMap::from([(key, BTreeMap::from([(inner, text)]))])) {
        Ok(s) => Ok(s),
        Err(e) => Err(e.to_string()),
    }
}

/// The text of an error's value inside an error document.
pub open spec fn error_text(v: ErrorValueView) -> Seq<char> {
    match v {
        ErrorValueView::Text(t) => t,
        ErrorValueView::Message(t) => t,
    }
}

/// Whether the document that reports `e` in format `f` can be written: JSON
/// always, YAML when the error's text fits a YAML scalar.
pub open spec fn error_document_writable(f: Format, e: CliError) -> bool {
    f is Json || fits_yaml_scalar(error_text(spec_error_value(e)))
}

/// The message given when an error's text is too long for a YAML document.
pub open spec fn too_long_for_yaml() -> Seq<char> {
    "the error's text is too long for a YAML scalar"@
}

proof fn lemma_document_keys_fit()
    ensures
        fits_yaml_scalar("error"@),
        fits_yaml_scalar("message"@),
{
    reveal_strlit("error");
    reveal_strlit("message");
    reveal_with_fuel(encode_utf8, 8);
}

/// The document that reports the error `e`: a map whose single entry
/// `error` holds the error's value, written in format `f`.
pub open spec fn spec_error_document(f: Format, e: CliError) -> Seq<char> {
    match (f, spec_error_value(e)) {
        (Format::Json, ErrorValueView::Text(t)) => json_text_entry("error"@, t),
        (Format::Json, ErrorValueView::Message(t)) => json_object_entry("error"@, "message"@, t),
        (Format::Yaml, ErrorValueView::Text(t)) => yaml_text_entry("error"@, t),
        (Format::Yaml, ErrorValueView::Message(t)) => yaml_object_entry("error"@, "message"@, t),
    }
}

/// The outcome of writing a document in format `f`: the text, or the
/// serialisation error of that format carrying the serialiser's message.
pub open spec fn spec_settle(f: Format, written: Result<String, String>) -> Result<String, CliError> {
    match written {
        Ok(text) => Ok(text),
        Err(message) => Err(
            match f {
                Format::Json => CliError::JsonSerdeError(message),
                Format::Yaml => CliError::YamlSerdeError(message),
            },
        ),
    }
}

/// Writes the document that reports the error `e` in format `f`.  A YAML
/// document whose error text is too long for a scalar cannot be written; the
/// outcome then names that.
pub fn error_document(f: Format, e: &CliError) -> (r: Result<String, String>)
    ensures
        error_document_writable(f, *e) ==> r is Ok && r->Ok_0@ == spec_error_document(f, *e),
        !error_document_writable(f, *e) ==> r is Err && r->Err_0@ == too_long_for_yaml(),
{
    proof {
        lemma_document_keys_fit();
    }
    let value = e.value();
    match (f, value) {
        (Format::Json, ErrorValue::Text(t)) => json_text_map("error", t.as_str()),
        (Format::Json, ErrorValue::Message(t)) => json_object_map("error", "message", t.as_str()),
        (Format::Yaml, value) => {
            let t = match &value {
                ErrorValue::Text(t) => t,
                ErrorValue::Message(t) => t,
            };
            if t.as_str().as_bytes().len() > i32::MAX as usize {
                Err(String::from_str("the error's text is too long for a YAML scalar"))
            } else {
                match value {
                    ErrorValue::Text(t) => yaml_text_map("error", t.as_str()),
                    ErrorValue::Message(t) => yaml_object_map("error", "message", t.as_str()),
                }
            }
        },
    }
}

/// Turns the outcome of writing a document into the result of the run: a
/// serialiser failure becomes the serialisation error of the format.
pub fn settle(f: Format, written: Result<String, String>) -> (r: Result<String, CliError>)
    ensures
        r == spec_settle(f, written),
{
    match written {
        Ok(text) => Ok(text),
        Err(message) => Err(
            match f {
                Format::Json => CliError::JsonSerdeError(message),
                Format::Yaml => CliError::YamlSerdeError(message),
            },
        ),
    }
}

} // verus!
