//! Reading `yt-dlp`'s JSON answer with serde_json. Each function here is
//! trusted: its contract is believed, not proved; what a parse yields is
//! named, not written out.

use vstd::prelude::*;
use crate::modelo::vista_opcional;

verus! {

/// The text of the error that `serde_json::from_str::<serde_json::Value>`
/// reports for the text (its `Display`), or `None` where the text parses.
pub uninterp spec fn json_error(texto: Seq<char>) -> Option<Seq<char>>;

/// Whether `serde_json::from_str::<serde_json::Value>` accepts the text.
pub open spec fn json_valido(texto: Seq<char>) -> bool {
    json_error(texto) is None
}

/// The string that the top-level key `clave` of the JSON text holds, if the
/// text parses, is an object, has that key, and it holds a string.
pub uninterp spec fn json_cadena(texto: Seq<char>, clave: Seq<char>) -> Option<Seq<char>>;

/// The unsigned integer that the top-level key `clave` of the JSON text
/// holds, under the same conditions (`Value::as_u64`).
pub uninterp spec fn json_natural(texto: Seq<char>, clave: Seq<char>) -> Option<u64>;

/// The string at `thumbnails[0].url` of the JSON text, if there is one.
pub uninterp spec fn json_primera_miniatura(texto: Seq<char>) -> Option<Seq<char>>;

/// Calls `serde_json::from_str::<serde_json::Value>` and keeps only its
/// error, turned into text by the error's `Display` (`to_string`), the one
/// conversion of that error that the library needs. Claims: the result is
/// `json_error` of the text.
#[verifier::external_body]
pub(crate) fn error_de_json(texto: &str) -> (r: Option<String>)
    ensures
        vista_opcional(r) == json_error(texto@),
{
    match serde_json::from_str::<serde_json::Value>(texto) {
        Ok(_) => None,
        Err(e) => Some(e.to_string()),
    }
}

/// Parses with `serde_json::from_str::<serde_json::Value>`, then reads
/// `value[clave].as_str()`. Claims: the result is `json_cadena` of the
/// arguments, and is `None` where the text does not parse.
#[verifier::external_body]
pub(crate) fn leer_cadena(texto: &str, clave: &str) -> (r: Option<String>)
    ensures
        vista_opcional(r) == json_cadena(texto@, clave@),
        !json_valido(texto@) ==> r is None,
{
    match serde_json::from_str::<serde_json::Value>(texto) {
        Ok(v) => match v[clave].as_str() {
            Some(s) => Some(s.to_string()),
            None => None,
        },
        Err(_) => None,
    }
}

/// Parses with `serde_json::from_str::<serde_json::Value>`, then reads
/// `value[clave].as_u64()`. Claims: the result is `json_natural` of the
/// arguments, and is `None` where the text does not parse.
#[verifier::external_body]
pub(crate) fn leer_natural(texto: &str, clave: &str) -> (r: Option<u64>)
    ensures
        r == json_natural(texto@, clave@),
        !json_valido(texto@) ==> r is None,
{
    match serde_json::from_str::<serde_json::Value>(texto) {
        Ok(v) => v[clave].as_u64(),
        Err(_) => None,
    }
}

/// Parses with `serde_json::from_str::<serde_json::Value>`, then reads
/// `value["thumbnails"][0]["url"].as_str()`. Claims: the result is
/// `json_primera_miniatura` of the text, and is `None` where it does not
/// parse.
#[verifier::external_body]
pub(crate) fn leer_primera_miniatura(texto: &str) -> (r: Option<String>)
    ensures
        vista_opcional(r) == json_primera_miniatura(texto@),
        !json_valido(texto@) ==> r is None,
{
    match serde_json::from_str::<serde_json::Value>(texto) {
        Ok(v) => match v["thumbnails"][0]["url"].as_str() {
            Some(s) => Some(s.to_string()),
            None => None,
        },
        Err(_) => None,
    }
}

} // verus!
