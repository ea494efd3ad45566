//! The envelope: the canonical, sequenced and timestamped form of one record.

use crate::codec::{encode_error_text, msgpack_named, to_msgpack_named};
use crate::document::{
    as_float_bits, as_text, error_text, float_or_null, json_document, json_of, member, no_fields,
    object_value, parse, put_field, text_value, unsigned_value, Json, JsonNumber,
};
use vstd::prelude::*;

verus! {

/// The symbol given to a record that names none.
pub const UNKNOWN_SYMBOL: &'static str = "UNKNOWN";

/// A text that is not a JSON document, with what the decoder said of it.
#[derive(Debug, PartialEq, Eq)]
pub struct MalformedRecord {
    pub message: String,
}

/// An envelope that could not be encoded, with what the encoder said of it.
#[derive(Debug, PartialEq, Eq)]
pub struct EncodeError {
    pub message: String,
}

/// One record in canonical form. It is made by [`normalize`] and by nothing
/// else, so `raw` is always a document that the decoder produced.
#[derive(Debug, PartialEq, Eq)]
pub struct Envelope {
    symbol: String,
    seq_local: u64,
    ts_local_us: u64,
    raw: serde_json::Value,
}

/// What an envelope holds. `price` and `qty` are binary64 bit patterns.
pub struct EnvelopeView {
    pub symbol: Seq<char>,
    pub price: Option<u64>,
    pub qty: Option<u64>,
    pub seq_local: u64,
    pub ts_local_us: u64,
    pub raw: Json,
}

/// The symbol of a document: the text under `symbol` where that is a string
/// with at least one character, and the sentinel otherwise.
pub open spec fn symbol_of(doc: Json) -> Seq<char> {
    match doc.field("symbol"@) {
        Some(Json::Text(s)) if s.len() > 0 => s,
        _ => UNKNOWN_SYMBOL@,
    }
}

/// The number under `key` read as a float, where the document has a number there.
pub open spec fn number_of(doc: Json, key: Seq<char>) -> Option<u64> {
    match doc.field(key) {
        Some(v) => v.float_bits(),
        None => None,
    }
}

/// The envelope of a document with the given sequence number and capture time.
pub open spec fn envelope_of(doc: Json, seq: u64, now_us: u64) -> EnvelopeView {
    EnvelopeView {
        symbol: symbol_of(doc),
        price: number_of(doc, "price"@),
        qty: number_of(doc, "qty"@),
        seq_local: seq,
        ts_local_us: now_us,
        raw: doc,
    }
}

/// A float as a JSON member: the number, or null where there is none.
pub open spec fn float_member(bits: Option<u64>) -> Json {
    match bits {
        Some(b) => Json::Number(JsonNumber::Float(b)),
        None => Json::Null,
    }
}

/// The document that is encoded for an envelope: an object of six members,
/// each under its field's name.
pub open spec fn document_of(e: EnvelopeView) -> Json {
    Json::Object(
        Map::<Seq<char>, Json>::empty().insert("symbol"@, Json::Text(e.symbol)).insert(
            "price"@,
            float_member(e.price),
        ).insert("qty"@, float_member(e.qty)).insert(
            "seq_local"@,
            Json::Number(JsonNumber::Unsigned(e.seq_local)),
        ).insert("ts_local_us"@, Json::Number(JsonNumber::Unsigned(e.ts_local_us))).insert(
            "raw"@,
            e.raw,
        ),
    )
}

impl View for Envelope {
    type V = EnvelopeView;

    closed spec fn view(&self) -> EnvelopeView {
        EnvelopeView {
            symbol: self.symbol@,
            price: number_of(json_of(self.raw), "price"@),
            qty: number_of(json_of(self.raw), "qty"@),
            seq_local: self.seq_local,
            ts_local_us: self.ts_local_us,
            raw: json_of(self.raw),
        }
    }
}

/// The capture time kept in an envelope: microseconds since the Unix epoch,
/// reduced to 64 bits.
pub fn capture_time_us(micros_since_epoch: u128) -> (us: u64)
    ensures
        us == micros_since_epoch % 0x1_0000_0000_0000_0000,
{
    (micros_since_epoch % 0x1_0000_0000_0000_0000u128) as u64
}

/// The symbol for what was found under `symbol`: the text itself, or the
/// sentinel where nothing was found or the text is empty.
pub fn symbol_or_unknown(found: Option<&str>) -> (symbol: String)
    ensures
        symbol@ == match found {
            Some(s) if s@.len() > 0 => s@,
            _ => UNKNOWN_SYMBOL@,
        },
{
    match found {
        Some(s) => {
            if s.is_empty() {
                String::from_str(UNKNOWN_SYMBOL)
            } else {
                String::from_str(s)
            }
        },
        None => String::from_str(UNKNOWN_SYMBOL),
    }
}

/// Normalises one record. The text is decoded as a JSON document; a text
/// that is no document is the only error. From the document come the symbol
/// (the sentinel where `symbol` is missing, not a string, or empty) and the
/// optional `price` and `qty`; the document itself is kept as `raw`.
pub fn normalize(text: &str, seq: u64, now_us: u64) -> (res: Result<Envelope, MalformedRecord>)
    ensures
        match res {
            Ok(envelope) => json_document(text@) matches Ok(doc) && envelope@ == envelope_of(
                doc,
                seq,
                now_us,
            ),
            Err(error) => json_document(text@) matches Err(message) && error.message@ == message,
        },
{
    match parse(text) {
        Ok(raw) => {
            let found = match member(&raw, "symbol") {
                Some(v) => as_text(v),
                None => None,
            };
            let symbol = symbol_or_unknown(found);
            Ok(Envelope { symbol, seq_local: seq, ts_local_us: now_us, raw })
        },
        Err(e) => Err(MalformedRecord { message: error_text(&e) }),
    }
}

impl Envelope {
    /// The symbol: the record's own, or the sentinel.
    pub fn symbol(&self) -> (s: &str)
        ensures
            s@ == self@.symbol,
    {
        self.symbol.as_str()
    }

    /// The price as a binary64 bit pattern, where the record has a numeric `price`.
    pub fn price(&self) -> (bits: Option<u64>)
        ensures
            bits == self@.price,
    {
        match member(&self.raw, "price") {
            Some(v) => as_float_bits(v),
            None => None,
        }
    }

    /// The quantity as a binary64 bit pattern, where the record has a numeric `qty`.
    pub fn qty(&self) -> (bits: Option<u64>)
        ensures
            bits == self@.qty,
    {
        match member(&self.raw, "qty") {
            Some(v) => as_float_bits(v),
            None => None,
        }
    }

    /// The local sequence number.
    pub fn seq_local(&self) -> (n: u64)
        ensures
            n == self@.seq_local,
    {
        self.seq_local
    }

    /// The capture time in microseconds since the Unix epoch.
    pub fn ts_local_us(&self) -> (t: u64)
        ensures
            t == self@.ts_local_us,
    {
        self.ts_local_us
    }

    /// The record as it was decoded.
    pub fn raw(&self) -> (doc: &serde_json::Value)
        ensures
            json_of(*doc) == self@.raw,
    {
        &self.raw
    }

    /// The document that stands for the envelope on the wire.
    pub fn into_document(self) -> (doc: serde_json::Value)
        ensures
            json_of(doc) == document_of(self@),
    {
        let price = float_or_null(member(&self.raw, "price"));
        let qty = float_or_null(member(&self.raw, "qty"));
        let mut fields = no_fields();
        put_field(&mut fields, "symbol", text_value(self.symbol.as_str()));
        put_field(&mut fields, "price", price);
        put_field(&mut fields, "qty", qty);
        put_field(&mut fields, "seq_local", unsigned_value(self.seq_local));
        put_field(&mut fields, "ts_local_us", unsigned_value(self.ts_local_us));
        put_field(&mut fields, "raw", self.raw);
        object_value(fields)
    }

    /// Encodes the envelope as a MessagePack map that carries the field
    /// names. The bytes depend on the envelope alone. An error is reported
    /// only where the encoder could not get memory for them.
    pub fn encode(self) -> (res: Result<Vec<u8>, EncodeError>)
        ensures
            res matches Ok(bytes) ==> bytes@ == msgpack_named(document_of(self@)),
    {
        let doc = self.into_document();
        encoding_outcome(to_msgpack_named(&doc))
    }
}

/// What the library makes of the encoder's answer: bytes are handed on as
/// they are, and an encoder error becomes an [`EncodeError`] that carries
/// what the encoder said. It succeeds exactly when the encoder did.
pub fn encoding_outcome(answer: Result<Vec<u8>, rmp_serde::encode::Error>) -> (res: Result<
    Vec<u8>,
    EncodeError,
>)
    ensures
        match answer {
            Ok(bytes) => res == Ok::<Vec<u8>, EncodeError>(bytes),
            Err(_) => res is Err,
        },
{
    match answer {
        Ok(bytes) => Ok(bytes),
        Err(e) => Err(EncodeError { message: encode_error_text(&e) }),
    }
}

} // verus!
