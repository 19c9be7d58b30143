//! Canonical protected-message preview representation and compatibility reads.

use vstd::prelude::*;

use crate::error::AiError;
use crate::text::{byte_len, same_text, utf8_len};

verus! {

/// The JSON shapes a stored message preview can take, as far as decoding
/// reads them.
#[derive(Clone, Debug)]
pub enum StoredMessagePreview {
    /// A JSON string: the canonical form.
    Text(String),
    /// A JSON object: each member's name, with its value when that value is a
    /// JSON string and `None` otherwise.
    Object(Vec<(String, Option<String>)>),
    /// Any other JSON value.
    Other,
}

/// The text a stored preview holds: a canonical string, or the legacy object
/// whose only member is the string `text`.
pub open spec fn stored_preview_text(value: StoredMessagePreview) -> Option<Seq<char>> {
    match value {
        StoredMessagePreview::Text(text) => Some(text@),
        StoredMessagePreview::Object(members) => {
            if members@.len() == 1 && members@[0].0@ == "text"@ && members@[0].1 is Some {
                Some(members@[0].1->0@)
            } else {
                None
            }
        },
        StoredMessagePreview::Other => None,
    }
}

/// The canonical stored form of a preview: the text as a JSON string.
pub fn canonical_message_preview(text: &str) -> (r: StoredMessagePreview)
    ensures
        r matches StoredMessagePreview::Text(t) && t@ == text@,
{
    StoredMessagePreview::Text(text.to_string())
}

/// Reads a stored preview back: the canonical string, or the exact legacy
/// `{"text": ...}` object, of at most `maximum_bytes` UTF-8 bytes. Anything
/// else is a persistence failure.
pub fn decode_message_preview(value: StoredMessagePreview, maximum_bytes: usize) -> (r: Result<
    String,
    AiError,
>)
    ensures
        r is Ok <==> (stored_preview_text(value) matches Some(t) && byte_len(t) <= maximum_bytes),
        r matches Ok(t) ==> stored_preview_text(value) == Some(t@),
        r matches Err(e) ==> e is PersistenceFailed,
{
    let text = match value {
        StoredMessagePreview::Text(text) => text,
        StoredMessagePreview::Object(members) => {
            if members.len() != 1 || !same_text(members[0].0.as_str(), "text") {
                return Err(AiError::PersistenceFailed);
            }
            match &members[0].1 {
                Some(text) => text.clone(),
                None => {
                    return Err(AiError::PersistenceFailed);
                },
            }
        },
        StoredMessagePreview::Other => {
            return Err(AiError::PersistenceFailed);
        },
    };
    if utf8_len(text.as_str()) > maximum_bytes {
        return Err(AiError::PersistenceFailed);
    }
    Ok(text)
}

/// Law: a preview stored in canonical form reads back as the same text
/// whenever the text fits the bound: the decoder accepts it and returns it.
pub proof fn lemma_canonical_preview_round_trips(text: String, maximum_bytes: usize)
    requires
        byte_len(text@) <= maximum_bytes,
    ensures
        stored_preview_text(StoredMessagePreview::Text(text)) == Some(text@),
        stored_preview_text(StoredMessagePreview::Text(text)) matches Some(t) && byte_len(t)
            <= maximum_bytes,
{
}

} // verus!
