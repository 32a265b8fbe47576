//! Application messages: a text or a run of raw bytes.
//!
//! Conversions between the two are always explicit calls. A conversion that
//! does not fit the variant at hand fails with a [`ConversionError`] and leaves
//! the message as it was.

use vstd::prelude::*;
use vstd::string::*;
use vstd::utf8::*;

verus! {

/// A message exchanged with the central.
#[derive(Clone, Debug, PartialEq, Eq)]
pub enum BleMessage {
    Text(String),
    Raw(Vec<u8>),
}

/// What a message holds, as mathematical sequences.
pub enum MessageView {
    Text(Seq<char>),
    Raw(Seq<u8>),
}

/// Why a conversion of a message was refused.
#[derive(Clone, Copy, Debug, PartialEq, Eq, Structural)]
pub enum ConversionError {
    /// A text was asked to become a text "from raw".
    TextFromNonRaw,
    /// A text was asked to take more raw bytes.
    ExtendNonRaw,
}

/// The text that lossy UTF-8 decoding makes of `bytes`: the decoded characters,
/// with U+FFFD standing in for each ill-formed stretch. Where the bytes are
/// well-formed it is their decoding; what it is elsewhere is left to std.
pub uninterp spec fn lossy_utf8(bytes: Seq<u8>) -> Seq<char>;

/// Calls `String::from_utf8_lossy` and takes ownership of what it returns.
///
/// Trusted: the result is the lossy decoding of the bytes, and for well-formed
/// UTF-8 that is the plain decoding, as std documents.
#[verifier::external_body]
fn decode_lossy(bytes: &Vec<u8>) -> (text: String)
    ensures
        text@ == lossy_utf8(bytes@),
        valid_utf8(bytes@) ==> text@ == decode_utf8(bytes@),
{
    String::from_utf8_lossy(bytes).into_owned()
}

impl MessageView {
    /// The bytes that represent the message on the wire: the UTF-8 encoding
    /// of a text, the bytes themselves otherwise.
    pub open spec fn payload(self) -> Seq<u8> {
        match self {
            MessageView::Text(chars) => encode_utf8(chars),
            MessageView::Raw(bytes) => bytes,
        }
    }

    /// The message read as text: a text as it is, raw bytes decoded lossily.
    pub open spec fn text(self) -> Seq<char> {
        match self {
            MessageView::Text(chars) => chars,
            MessageView::Raw(bytes) => lossy_utf8(bytes),
        }
    }
}

impl View for BleMessage {
    type V = MessageView;

    open spec fn view(&self) -> MessageView {
        match self {
            BleMessage::Text(s) => MessageView::Text(s@),
            BleMessage::Raw(v) => MessageView::Raw(v@),
        }
    }
}

impl ConversionError {
    /// The sentence that describes the error to a person.
    pub fn message(&self) -> (text: String)
        ensures
            text@ == match *self {
                ConversionError::TextFromNonRaw =>
                    "Message must be raw bytes in order to convert to text"@,
                ConversionError::ExtendNonRaw =>
                    "Message must be raw bytes in order to extend them"@,
            },
    {
        match self {
            ConversionError::TextFromNonRaw =>
                "Message must be raw bytes in order to convert to text".to_owned(),
            ConversionError::ExtendNonRaw =>
                "Message must be raw bytes in order to extend them".to_owned(),
        }
    }
}

impl BleMessage {
    /// A text message that holds `text`.
    pub fn from_text(text: String) -> (msg: BleMessage)
        ensures
            msg == BleMessage::Text(text),
            msg@ == MessageView::Text(text@),
    {
        BleMessage::Text(text)
    }

    /// A raw message that holds `bytes`.
    pub fn from_bytes(bytes: Vec<u8>) -> (msg: BleMessage)
        ensures
            msg == BleMessage::Raw(bytes),
            msg@ == MessageView::Raw(bytes@),
    {
        BleMessage::Raw(bytes)
    }

    /// Consumes the message and returns its byte representation.
    pub fn take_bytes(self) -> (bytes: Vec<u8>)
        ensures
            bytes@ == self@.payload(),
    {
        match self {
            BleMessage::Text(s) => s.as_str().as_bytes_vec(),
            BleMessage::Raw(v) => v,
        }
    }

    /// Turns a raw message into the text that its bytes decode to, lossily.
    /// A message that is already a text is refused.
    pub fn convert_to_text(self) -> (res: Result<BleMessage, ConversionError>)
        ensures
            match self@ {
                MessageView::Raw(bytes) => res matches Ok(msg) && msg@ == MessageView::Text(
                    lossy_utf8(bytes),
                ),
                MessageView::Text(_) => res matches Err(e) && e
                    == ConversionError::TextFromNonRaw,
            },
            self@ is Raw && valid_utf8(self@->Raw_0) ==> res is Ok && res->Ok_0@
                == MessageView::Text(decode_utf8(self@->Raw_0)),
            forall|chars: Seq<char>|
                self@ == MessageView::Raw(#[trigger] encode_utf8(chars)) ==> res is Ok
                    && res->Ok_0@ == MessageView::Text(chars),
    {
        broadcast use {encode_utf8_valid_utf8, encode_utf8_decode_utf8};

        match self {
            BleMessage::Raw(v) => Ok(BleMessage::from_text(decode_lossy(&v))),
            BleMessage::Text(_) => Err(ConversionError::TextFromNonRaw),
        }
    }

    /// Appends `bytes` to a raw message in place. A text is refused and left
    /// as it was.
    pub fn extend_raw_bytes(&mut self, bytes: Vec<u8>) -> (res: Result<(), ConversionError>)
        ensures
            match old(self)@ {
                MessageView::Raw(held) => res is Ok && final(self)@ == MessageView::Raw(
                    held + bytes@,
                ),
                MessageView::Text(_) => res matches Err(e) && e == ConversionError::ExtendNonRaw
                    && *final(self) == *old(self),
            },
    {
        match self {
            BleMessage::Raw(v) => {
                let mut tail = bytes;
                v.append(&mut tail);
                Ok(())
            },
            BleMessage::Text(_) => Err(ConversionError::ExtendNonRaw),
        }
    }

    /// The message as a string: a text as it is, raw bytes decoded lossily.
    pub fn as_string(&self) -> (text: String)
        ensures
            text@ == self@.text(),
            self@ is Raw && valid_utf8(self@->Raw_0) ==> text@ == decode_utf8(self@->Raw_0),
            forall|chars: Seq<char>|
                self@ == MessageView::Raw(#[trigger] encode_utf8(chars)) ==> text@ == chars,
    {
        broadcast use {encode_utf8_valid_utf8, encode_utf8_decode_utf8};

        match self {
            BleMessage::Text(s) => s.clone(),
            BleMessage::Raw(v) => decode_lossy(v),
        }
    }
}

impl From<String> for BleMessage {
    /// A text message that holds the string.
    fn from(text: String) -> (msg: BleMessage) {
        BleMessage::Text(text)
    }
}

impl vstd::std_specs::convert::FromSpecImpl<String> for BleMessage {
    open spec fn obeys_from_spec() -> bool {
        true
    }

    open spec fn from_spec(text: String) -> BleMessage {
        BleMessage::Text(text)
    }
}

impl From<Vec<u8>> for BleMessage {
    /// A raw message that holds the bytes.
    fn from(bytes: Vec<u8>) -> (msg: BleMessage) {
        BleMessage::Raw(bytes)
    }
}

impl vstd::std_specs::convert::FromSpecImpl<Vec<u8>> for BleMessage {
    open spec fn obeys_from_spec() -> bool {
        true
    }

    open spec fn from_spec(bytes: Vec<u8>) -> BleMessage {
        BleMessage::Raw(bytes)
    }
}

impl From<&str> for BleMessage {
    /// A text message that holds a copy of the string slice.
    fn from(text: &str) -> (msg: BleMessage)
        ensures
            msg@ == MessageView::Text(text@),
    {
        BleMessage::Text(text.to_owned())
    }
}

impl vstd::std_specs::convert::FromSpecImpl<&str> for BleMessage {
    open spec fn obeys_from_spec() -> bool {
        false
    }

    open spec fn from_spec(text: &str) -> BleMessage {
        arbitrary()
    }
}

/// The payload of a text is well-formed UTF-8 that decodes to the text: a
/// text sent as bytes and converted to text on the other side arrives
/// unchanged.
pub proof fn lemma_text_round_trip(chars: Seq<char>)
    ensures
        valid_utf8(MessageView::Text(chars).payload()),
        decode_utf8(MessageView::Text(chars).payload()) == chars,
{
    encode_utf8_valid_utf8(chars);
    encode_utf8_decode_utf8(chars);
}

} // verus!
