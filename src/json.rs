//! The JSON value type of serde_json, and the few calls into it that the
//! protocol needs.
use vstd::prelude::*;
use crate::types::opt_string_view;

verus! {

#[verifier::external_type_specification]
#[verifier::external_body]
pub struct ExValue(serde_json::Value);

pub open spec fn hex_digit(d: nat) -> char {
    seq!['0', '1', '2', '3', '4', '5', '6', '7', '8', '9', 'a', 'b', 'c', 'd', 'e', 'f'][d as int]
}

/// How one character stands inside a JSON string literal: `"` and `\` and
/// the control characters are escaped, every other character stands as is.
pub open spec fn escaped(c: char) -> Seq<char> {
    if c == '"' {
        seq!['\\', '"']
    } else if c == '\\' {
        seq!['\\', '\\']
    } else if c == '\u{8}' {
        seq!['\\', 'b']
    } else if c == '\t' {
        seq!['\\', 't']
    } else if c == '\n' {
        seq!['\\', 'n']
    } else if c == '\u{c}' {
        seq!['\\', 'f']
    } else if c == '\r' {
        seq!['\\', 'r']
    } else if (c as u32) < 0x20 {
        seq!['\\', 'u', '0', '0', hex_digit((c as u32 / 16) as nat), hex_digit((c as u32 % 16) as nat)]
    } else {
        seq![c]
    }
}

pub open spec fn escape_all(s: Seq<char>) -> Seq<char>
    decreases s.len(),
{
    if s.len() == 0 {
        Seq::empty()
    } else {
        escape_all(s.drop_last()) + escaped(s.last())
    }
}

/// The compact JSON string literal that stands for `s`, quotes and escapes
/// included.
pub open spec fn json_quoted(s: Seq<char>) -> Seq<char> {
    seq!['"'] + escape_all(s) + seq!['"']
}

/// A JSON string literal holds no line break: an escaped text never breaks
/// the one-message-per-line framing.
pub proof fn law_quoted_has_no_newline(s: Seq<char>)
    ensures
        !json_quoted(s).contains('\n'),
        !json_quoted(s).contains('\r'),
    decreases s.len(),
{
    if s.len() > 0 {
        law_quoted_has_no_newline(s.drop_last());
        let e = escaped(s.last());
        assert(!e.contains('\n') && !e.contains('\r')) by {
            if (s.last() as u32) < 0x20 && s.last() != '\u{8}' && s.last() != '\t' && s.last() != '\n' && s.last() != '\u{c}' && s.last() != '\r' {
                let q = (s.last() as u32 / 16) as nat;
                let m = (s.last() as u32 % 16) as nat;
                assert(q < 16 && m < 16);
                assert(hex_digit(q) != '\n' && hex_digit(q) != '\r');
                assert(hex_digit(m) != '\n' && hex_digit(m) != '\r');
            }
        }
        assert(json_quoted(s) =~= json_quoted(s.drop_last()).drop_last() + e + seq!['"']);
    }
}

/// Relies on `serde_json::to_string` on a `str`: a quote, each character as
/// its escape table gives it (`format_escaped_str_contents`), a quote. Its
/// only errors come from the writer, and it writes into a `Vec`, which does
/// not fail.
#[verifier::external_body]
pub(crate) fn quote(s: &str) -> (r: String)
    ensures
        r@ == json_quoted(s@),
{
    serde_json::to_string(s).unwrap()
}

/// Relies on serde_json's `Display` for `Value`: compact JSON text of `v`.
#[verifier::external_body]
pub(crate) fn value_text(v: &serde_json::Value) -> (r: String) {
    v.to_string()
}

/// What a line says as a JSON-RPC request, over plain values.
pub struct LineModel {
    /// The line is one JSON value.
    pub json: bool,
    /// Its member `method`, where that is a string.
    pub method: Option<Seq<char>>,
    /// It has a member `params`.
    pub has_params: bool,
    /// Its member `id`, where that is a number, as its JSON text.
    pub id_num: Option<Seq<char>>,
    /// Its member `id`, where that is a string.
    pub id_str: Option<Seq<char>>,
}

/// The members of a request line, as serde_json reads them.
pub struct LineFields {
    pub json: bool,
    pub method: Option<String>,
    pub params: Option<serde_json::Value>,
    pub id_num: Option<String>,
    pub id_str: Option<String>,
}

impl LineFields {
    pub open spec fn model(&self) -> LineModel {
        LineModel {
            json: self.json,
            method: opt_string_view(self.method),
            has_params: self.params is Some,
            id_num: opt_string_view(self.id_num),
            id_str: opt_string_view(self.id_str),
        }
    }
}

/// What serde_json reads from the line `s`.
pub uninterp spec fn line_fields(s: Seq<char>) -> LineModel;

/// Relies on `serde_json::from_str` to read the line as one JSON value, and
/// on `Value::get`, `Value::as_str` and `Value::as_number` to read its
/// members `method`, `params` and `id`, a number's text as `Number`'s
/// `Display` writes it; all of them depend on the text alone.
#[verifier::external_body]
pub(crate) fn read_line_fields(s: &str) -> (r: LineFields)
    ensures
        r.model() == line_fields(s@),
{
    match serde_json::from_str::<serde_json::Value>(s) {
        Ok(v) => LineFields {
            json: true,
            method: v.get("method").and_then(serde_json::Value::as_str).map(str::to_owned),
            params: v.get("params").cloned(),
            id_num: v.get("id").and_then(serde_json::Value::as_number).map(ToString::to_string),
            id_str: v.get("id").and_then(serde_json::Value::as_str).map(str::to_owned),
        },
        Err(_) => LineFields { json: false, method: None, params: None, id_num: None, id_str: None },
    }
}

} // verus!
