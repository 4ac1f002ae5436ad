//! Messages received from Kafka.
use vstd::prelude::*;
use vstd::utf8::{decode_utf8, valid_utf8};

verus! {

/// Decodes bytes as UTF-8 with `std::str::from_utf8`, which accepts exactly the valid UTF-8
/// encodings; the decoded text is copied into a `String`.
#[verifier::external_body]
fn utf8_text(bytes: &[u8]) -> (s: Option<String>)
    ensures
        s is Some <==> valid_utf8(bytes@),
        s matches Some(t) ==> t@ == decode_utf8(bytes@),
{
    match std::str::from_utf8(bytes) {
        Ok(t) => Some(t.to_owned()),
        Err(_) => None,
    }
}

/// The text of optional raw bytes: present only when the bytes are present and valid UTF-8.
pub open spec fn text_of(bytes: Option<Seq<u8>>) -> Option<Seq<char>> {
    match bytes {
        Some(b) => if valid_utf8(b) {
            Some(decode_utf8(b))
        } else {
            None
        },
        None => None,
    }
}

fn optional_text(bytes: Option<&[u8]>) -> (s: Option<String>)
    ensures
        s.deep_view() == text_of(match bytes {
            Some(b) => Some(b@),
            None => None,
        }),
{
    match bytes {
        Some(b) => utf8_text(b),
        None => None,
    }
}

/// Owned Kafka message with its key and payload as text.
pub struct KafkaMessage {
    key: Option<String>,
    payload: Option<String>,
}

impl KafkaMessage {
    /// The key as text.
    pub closed spec fn key_text(&self) -> Option<Seq<char>> {
        self.key.deep_view()
    }

    /// The payload as text.
    pub closed spec fn payload_text(&self) -> Option<Seq<char>> {
        self.payload.deep_view()
    }

    /// The message with the raw key and payload of a received record: each is kept when it is
    /// present and valid UTF-8, and dropped otherwise.
    pub fn from_bytes(key: Option<&[u8]>, payload: Option<&[u8]>) -> (m: KafkaMessage)
        ensures
            m.key_text() == text_of(match key {
                Some(b) => Some(b@),
                None => None,
            }),
            m.payload_text() == text_of(match payload {
                Some(b) => Some(b@),
                None => None,
            }),
    {
        KafkaMessage { key: optional_text(key), payload: optional_text(payload) }
    }

    /// Get message key
    pub fn key(&self) -> (k: Option<&str>)
        ensures
            k is Some == self.key_text() is Some,
            k matches Some(t) ==> t@ == self.key_text()->0,
    {
        match &self.key {
            Some(k) => Some(k.as_str()),
            None => None,
        }
    }

    /// Get message payload
    pub fn payload(&self) -> (p: Option<&str>)
        ensures
            p is Some == self.payload_text() is Some,
            p matches Some(t) ==> t@ == self.payload_text()->0,
    {
        match &self.payload {
            Some(p) => Some(p.as_str()),
            None => None,
        }
    }
}

} // verus!
