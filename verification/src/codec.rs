//! The binary encoding: MessagePack with field names, as `rmp_serde` writes it.

use crate::document::{json_of, Json};
use vstd::prelude::*;

verus! {

#[verifier::external_type_specification]
#[verifier::external_body]
pub struct ExEncodeError(rmp_serde::encode::Error);

/// The bytes that `rmp_serde::to_vec_named` writes for a document: a
/// self-describing MessagePack value in which every object is a map that
/// carries its keys.
pub uninterp spec fn msgpack_named(doc: Json) -> Seq<u8>;

/// `rmp_serde::to_vec_named` on a JSON value. Where it answers with bytes they
/// are the encoding of the document. It reports an error only where memory
/// for the bytes cannot be had, which no contract can foretell.
#[verifier::external_body]
pub(crate) fn to_msgpack_named(doc: &serde_json::Value) -> (res: Result<
    Vec<u8>,
    rmp_serde::encode::Error,
>)
    ensures
        res matches Ok(bytes) ==> bytes@ == msgpack_named(json_of(*doc)),
{
    rmp_serde::to_vec_named(doc)
}

/// The `Display` text of an `rmp_serde::encode::Error`.
#[verifier::external_body]
pub(crate) fn encode_error_text(e: &rmp_serde::encode::Error) -> (res: String) {
    e.to_string()
}

} // verus!
