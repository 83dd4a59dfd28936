//! The one place where JSON text is read: the item lists that `price` and
//! `order create` take on the command line.

use vstd::prelude::*;

verus! {

#[verifier::external_type_specification]
#[verifier::external_body]
pub struct ExJsonValue(serde_json::Value);

#[verifier::external_type_specification]
#[verifier::external_body]
pub struct ExJsonError(serde_json::Error);

/// The JSON document that `text` holds, as `serde_json` reads it, or `None`
/// when `serde_json` rejects the text.
pub uninterp spec fn json_document(text: Seq<char>) -> Option<serde_json::Value>;

/// The error `serde_json` reports when it refuses `text`.
pub uninterp spec fn json_refusal(text: Seq<char>) -> serde_json::Error;

/// The message (`Display` of the error) `serde_json` gives when it refuses `text`.
pub uninterp spec fn json_refusal_message(text: Seq<char>) -> Seq<char>;

/// Calls `serde_json::from_str::<serde_json::Value>`. The contract claims that
/// the outcome depends on the text alone: the same text is accepted alike and
/// yields the same value (named `json_document`), or is refused alike with
/// the same error (named `json_refusal`). What JSON grammar `serde_json`
/// accepts is not restated.
#[verifier::external_body]
fn from_json_text(text: &str) -> (res: Result<serde_json::Value, serde_json::Error>)
    ensures
        match res {
            Ok(v) => json_document(text@) == Some(v),
            Err(e) => json_document(text@) is None && e == json_refusal(text@),
        },
{
    serde_json::from_str(text)
}

/// Calls `serde_json::Error`'s `Display` on the error that refused `text`.
/// The contract claims that the message is a function of that text (named
/// `json_refusal_message`); its wording is not restated. `text` only says
/// which refusal `err` is.
#[verifier::external_body]
fn json_error_message(text: &str, err: &serde_json::Error) -> (m: String)
    requires
        *err == json_refusal(text@),
    ensures
        m@ == json_refusal_message(text@),
{
    err.to_string()
}

/// Why an item list was refused: `serde_json`'s own message.
pub struct InvalidItems {
    pub message: String,
}

/// Reads the item list (a JSON document such as
/// `[{"productCode":"9900005462","quantity":1}]`). It is accepted exactly when
/// `serde_json` accepts the text, and then yields the document it reads;
/// otherwise the refusal carries `serde_json`'s message for the text.
pub fn parse_items(items: &str) -> (res: Result<serde_json::Value, InvalidItems>)
    ensures
        match res {
            Ok(v) => json_document(items@) == Some(v),
            Err(e) => json_document(items@) is None && e.message@ == json_refusal_message(items@),
        },
{
    match from_json_text(items) {
        Ok(v) => Ok(v),
        Err(e) => Err(InvalidItems { message: json_error_message(items, &e) }),
    }
}

} // verus!
