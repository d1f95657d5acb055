//! The Lightning message that carries an LSPS message: its type id, and its
//! payload, which is written without a length prefix as LSPS0 expects it to
//! be the remainder of the message.

use vstd::prelude::*;
use vstd::utf8::{decode_utf8, encode_utf8, valid_utf8};

use lightning::ln::msgs::DecodeError;
use lightning::util::ser::{Readable, WithoutLength, Writeable};

verus! {

/// The Lightning message type id for LSPS messages.
pub const LSPS_MESSAGE_TYPE_ID: u16 = 37913;

#[verifier::external_type_specification]
#[verifier::external_body]
pub struct ExDecodeError(DecodeError);

/// Writes `payload` with lightning's `WithoutLength<&String>` encoding, which
/// `write_all`s the UTF-8 bytes of the string; written into a `Vec<u8>` this
/// cannot fail. The contract claims that the bytes are the UTF-8 encoding of
/// the payload.
#[verifier::external_body]
fn write_without_length(payload: &String) -> (bytes: Vec<u8>)
    ensures
        bytes@ == encode_utf8(payload@),
{
    let mut bytes = Vec::new();
    let _ = WithoutLength(payload).write(&mut bytes);
    bytes
}

/// Reads a string with lightning's `WithoutLength<String>` decoding, which
/// reads every remaining byte and decodes them as UTF-8. The contract claims
/// that it succeeds exactly on valid UTF-8, with the decoded text; the error
/// that it returns otherwise (`DecodeError::InvalidValue`) is not stated.
#[verifier::external_body]
fn read_without_length(bytes: &[u8]) -> (res: Result<String, DecodeError>)
    ensures
        res is Ok <==> valid_utf8(bytes@),
        res matches Ok(s) ==> s@ == decode_utf8(bytes@),
{
    let mut reader: &[u8] = bytes;
    let read: Result<WithoutLength<String>, DecodeError> = Readable::read(&mut reader);
    read.map(|w| w.0)
}

/// Why bytes could not be read as the payload of an LSPS message.
#[derive(Clone, Debug, PartialEq, Eq)]
pub enum RawMessageDecodeError {
    /// The bytes are not valid UTF-8.
    InvalidValue,
}

/// Lightning message type used by LSPS protocols.
#[derive(Clone, Debug, PartialEq, Eq)]
pub struct RawLSPSMessage {
    /// The raw string payload that holds the actual message.
    pub payload: String,
}

impl RawLSPSMessage {
    /// The Lightning message type id of the message.
    pub fn type_id(&self) -> (id: u16)
        ensures
            id == LSPS_MESSAGE_TYPE_ID,
    {
        LSPS_MESSAGE_TYPE_ID
    }

    /// The bytes the message is written as: the UTF-8 bytes of its payload,
    /// with no length prefix.
    pub fn write_bytes(&self) -> (bytes: Vec<u8>)
        ensures
            bytes@ == encode_utf8(self.payload@),
    {
        write_without_length(&self.payload)
    }

    /// Reads a message from the remaining bytes of a Lightning message.
    pub fn read_bytes(bytes: &[u8]) -> (res: Result<RawLSPSMessage, RawMessageDecodeError>)
        ensures
            match res {
                Ok(m) => valid_utf8(bytes@) && m.payload@ == decode_utf8(bytes@),
                Err(e) => !valid_utf8(bytes@) && e == RawMessageDecodeError::InvalidValue,
            },
    {
        match read_without_length(bytes) {
            Ok(payload) => Ok(RawLSPSMessage { payload }),
            Err(_) => Err(RawMessageDecodeError::InvalidValue),
        }
    }
}

/// Reading back the bytes that a message is written as gives back its payload.
pub proof fn lemma_raw_message_roundtrip(payload: Seq<char>)
    ensures
        valid_utf8(encode_utf8(payload)),
        decode_utf8(encode_utf8(payload)) == payload,
{
    vstd::utf8::encode_utf8_valid_utf8(payload);
    vstd::utf8::encode_utf8_decode_utf8(payload);
}

} // verus!
