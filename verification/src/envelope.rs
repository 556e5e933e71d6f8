//! The JSON error envelope shared by every endpoint: a single human-readable
//! `message` field, carried over the wire as `{"message": "<text>"}`.

use vstd::prelude::*;
use vstd::string::StringExecFns;

verus! {

/// What serde_json's string encoder returns for the given text: the quoted,
/// escaped JSON string literal.
pub uninterp spec fn json_string_lit(text: Seq<char>) -> Seq<char>;

/// What reading the top-level member `key` out of the JSON text `text`
/// yields: `Some` of that member's text when `text` parses as a JSON object
/// whose `key` member is a string, and `None` otherwise (malformed JSON, a
/// non-object, a missing member, or a member of another type). Members other
/// than `key` play no part, so unknown fields are tolerated.
pub uninterp spec fn json_string_field_at(text: Seq<char>, key: Seq<char>) -> Option<Seq<char>>;

/// The single key of the envelope's wire form.
pub open spec fn message_key() -> Seq<char> {
    "message"@
}

/// The envelope's wire form for a given message: a JSON object with exactly
/// one member, `message`, whose value is the message as a JSON string.
pub open spec fn envelope_wire(message: Seq<char>) -> Seq<char> {
    "{\"message\":"@ + json_string_lit(message) + "}"@
}

/// A character that JSON carries verbatim inside a string literal: anything
/// but the quote, the backslash, and the control characters.
pub open spec fn json_plain_char(c: char) -> bool {
    c != '"' && c != '\\' && (c as u32) >= 0x20
}

/// Text that needs no escaping inside a JSON string literal.
pub open spec fn json_plain_text(text: Seq<char>) -> bool {
    forall|i: int| 0 <= i < text.len() ==> json_plain_char(#[trigger] text[i])
}

/// The envelope's wire form for a message that needs no escaping: the text
/// simply quoted inside the one-member object.
pub open spec fn envelope_wire_plain(message: Seq<char>) -> Seq<char> {
    "{\"message\":\""@ + message + "\"}"@
}

#[verifier::external_type_specification]
#[verifier::external_body]
pub struct ExSerdeJsonError(serde_json::Error);

/// Relies on serde_json::to_string on a `str`. It always succeeds: the
/// serializer writes into a `Vec` and `str`'s `Serialize` has no error path.
/// The result is the JSON string literal for the text — quoted, with the
/// quote, the backslash and the control characters escaped by a fixed table
/// and every other character carried verbatim — and reading the `message`
/// member back out of the envelope frame built around that literal yields
/// the text again, the crate's documented serialize/deserialize round trip.
#[verifier::external_body]
fn encode_json_string(text: &str) -> (r: Result<String, serde_json::Error>)
    ensures
        r is Ok,
        r matches Ok(t) ==> t@ == json_string_lit(text@),
        r matches Ok(t) ==> (json_plain_text(text@)
            ==> t@ == seq!['"'] + text@ + seq!['"']),
        r matches Ok(t) ==> json_string_field_at(envelope_wire(text@), message_key())
            == Some(text@),
{
    serde_json::to_string(text)
}

/// Relies on serde_json::from_str::<serde_json::Value> and serde_json::Map::get:
/// parses the text as JSON and hands out the named top-level member when the
/// text is an object and that member is a string; yields `None` otherwise.
/// Unknown members are left alone, never rejected. Should a member be
/// duplicated, the later occurrence wins: serde_json keeps the last value
/// it parses for a key.
#[verifier::external_body]
fn json_string_field(text: &str, key: &str) -> (r: Option<String>)
    ensures
        match json_string_field_at(text@, key@) {
            Option::Some(m) => r matches Some(s) && s@ == m,
            Option::None => r is None,
        },
{
    match serde_json::from_str::<serde_json::Value>(text) {
        Ok(serde_json::Value::Object(map)) => match map.get(key) {
            Some(serde_json::Value::String(s)) => Some(s.clone()),
            _ => None,
        },
        _ => None,
    }
}

/// Why deserializing an envelope failed.
#[derive(Debug, Clone, Copy, PartialEq, Eq, Structural)]
pub enum ParseError {
    /// The input is not a JSON object carrying a string `message` member.
    SchemaMismatch,
}

/// Serializing an envelope failed; the caller degrades to the fixed
/// fallback response rather than propagating this further.
#[derive(Debug, Clone, Copy, PartialEq, Eq, Structural)]
pub struct SerializeError;

/// The standardized one-field error body returned by failing endpoints.
///
/// An envelope's model (its view) is the text of its message.
#[derive(Debug)]
pub struct ErrorResponse {
    message: String,
}

impl View for ErrorResponse {
    type V = Seq<char>;

    closed spec fn view(&self) -> Seq<char> {
        self.message@
    }
}

/// The text an envelope carries after its message is replaced: the new text,
/// whatever the envelope held before.
pub open spec fn with_message_spec(before: Seq<char>, message: Seq<char>) -> Seq<char> {
    message
}

impl ErrorResponse {
    /// Wrap a message in a fresh envelope.
    pub fn new(message: String) -> (r: ErrorResponse)
        ensures
            r@ == message@,
    {
        ErrorResponse { message }
    }

    /// Replace the message in place.
    pub fn set_message(&mut self, message: String)
        ensures
            final(self)@ == message@,
    {
        self.message = message;
    }

    /// Replace the message, returning the envelope for fluent chains.
    pub fn with_message(self, message: String) -> (r: ErrorResponse)
        ensures
            r@ == with_message_spec(self@, message@),
    {
        let mut e = self;
        e.message = message;
        e
    }

    /// Read-only access to the current message.
    pub fn message(&self) -> (r: &String)
        ensures
            r@ == self@,
    {
        &self.message
    }

    /// Serialize the envelope to its wire form, `{"message": "<text>"}`.
    ///
    /// Serialization always succeeds: the produced text is exactly the
    /// envelope's wire form, and deserializing it yields the message back —
    /// serialization never leaves the round trip. The `Result` mirrors the
    /// shape of the underlying encoder, whose failure path is proved never
    /// to run for an envelope.
    pub fn to_json(&self) -> (r: Result<String, SerializeError>)
        ensures
            r is Ok,
            r matches Ok(t) ==> t@ == envelope_wire(self@),
            r matches Ok(t) ==> (json_plain_text(self@) ==> t@ == envelope_wire_plain(self@)),
            r matches Ok(t) ==> json_string_field_at(t@, message_key()) == Some(self@),
    {
        match encode_json_string(self.message.as_str()) {
            Ok(enc) => {
                let mut framed = "{\"message\":".to_owned();
                framed.append(enc.as_str());
                framed.append("}");
                proof {
                    assert(framed@ =~= envelope_wire(self@));
                    if json_plain_text(self@) {
                        reveal_strlit("{\"message\":");
                        reveal_strlit("{\"message\":\"");
                        reveal_strlit("}");
                        reveal_strlit("\"}");
                        assert(framed@ =~= envelope_wire_plain(self@));
                    }
                }
                Ok(framed)
            },
            Err(_) => Err(SerializeError),
        }
    }

    /// Deserialize an envelope from JSON text.
    ///
    /// Succeeds exactly when the text is a JSON object whose `message`
    /// member is a string; unknown members are ignored for forward
    /// compatibility. Every other input is rejected with a schema mismatch.
    pub fn from_json(text: &str) -> (r: Result<ErrorResponse, ParseError>)
        ensures
            match json_string_field_at(text@, message_key()) {
                Option::Some(m) => r matches Ok(e) && e@ == m,
                Option::None => r matches Err(err) && err == ParseError::SchemaMismatch,
            },
    {
        match json_string_field(text, "message") {
            Some(message) => Ok(ErrorResponse { message }),
            None => Err(ParseError::SchemaMismatch),
        }
    }
}

/// Law: replacing an envelope's message is idempotent — replacing it with
/// `m2` and then with the same `m2` again leaves exactly the text that a
/// single replacement leaves.
pub proof fn lemma_with_message_idempotent(e: Seq<char>, m2: Seq<char>)
    ensures
        with_message_spec(with_message_spec(e, m2), m2) == with_message_spec(e, m2),
{
}

} // verus!
