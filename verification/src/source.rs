//! What a source hands over, and which text, if any, it stands for.

use crate::text::{blank, is_blank};
use vstd::prelude::*;
use vstd::utf8::{decode_utf8, valid_utf8};

verus! {

/// One item as a source reader delivers it: a line of a file, or a frame of
/// a streaming socket.
#[derive(Debug, PartialEq, Eq)]
pub enum Inbound {
    /// A line of a line-delimited file, without its line ending.
    Line(String),
    /// A text frame.
    Text(String),
    /// A binary frame.
    Binary(Vec<u8>),
    /// Any other frame of the protocol, such as a ping or a close.
    Control,
}

/// What an [`Inbound`] holds.
pub enum InboundView {
    Line(Seq<char>),
    Text(Seq<char>),
    Binary(Seq<u8>),
    Control,
}

impl View for Inbound {
    type V = InboundView;

    open spec fn view(&self) -> InboundView {
        match self {
            Inbound::Line(s) => InboundView::Line(s@),
            Inbound::Text(s) => InboundView::Text(s@),
            Inbound::Binary(b) => InboundView::Binary(b@),
            Inbound::Control => InboundView::Control,
        }
    }
}

/// The text that `String::from_utf8_lossy` gives for bytes: their decoding,
/// with each invalid sequence replaced by U+FFFD.
pub uninterp spec fn utf8_lossy(bytes: Seq<u8>) -> Seq<char>;

/// `String::from_utf8_lossy`, as an owned string. Valid UTF-8 is decoded as
/// it is; for other bytes the contract names the result.
#[verifier::external_body]
fn lossy_text(bytes: &[u8]) -> (res: String)
    ensures
        res@ == utf8_lossy(bytes@),
        valid_utf8(bytes@) ==> res@ == decode_utf8(bytes@),
{
    String::from_utf8_lossy(bytes).into_owned()
}

/// The record text of an item: a line unless it is blank, a text frame as it
/// is, a binary frame decoded leniently, and nothing for any other frame.
pub open spec fn record_text_of(item: InboundView) -> Option<Seq<char>> {
    match item {
        InboundView::Line(s) => if blank(s) {
            None
        } else {
            Some(s)
        },
        InboundView::Text(s) => Some(s),
        InboundView::Binary(b) => Some(utf8_lossy(b)),
        InboundView::Control => None,
    }
}

/// The text of the record that an item carries, or nothing where the item is
/// skipped: a blank line, or a frame that is neither text nor binary.
pub fn record_text(item: Inbound) -> (text: Option<String>)
    ensures
        match text {
            Some(t) => record_text_of(item@) == Some(t@),
            None => record_text_of(item@) is None,
        },
{
    match item {
        Inbound::Line(s) => {
            if is_blank(s.as_str()) {
                None
            } else {
                Some(s)
            }
        },
        Inbound::Text(s) => Some(s),
        Inbound::Binary(b) => Some(lossy_text(b.as_slice())),
        Inbound::Control => None,
    }
}

} // verus!
