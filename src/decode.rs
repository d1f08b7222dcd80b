use vstd::prelude::*;
use vstd::utf8::{decode_utf8, valid_utf8};
use encoding::all::GBK;
use encoding::{DecoderTrap, Encoding};

verus! {

/// The characters that GBK decoding gives for `bytes`, each malformed
/// sequence replaced by U+FFFD.
pub uninterp spec fn gbk_decoded(bytes: Seq<u8>) -> Seq<char>;

/// Relies on `std::str::from_utf8`: it accepts exactly the well-formed UTF-8
/// byte strings and reads the characters they encode.
#[verifier::external_body]
fn utf8_text(bytes: &[u8]) -> (r: Option<&str>)
    ensures
        r is Some <==> valid_utf8(bytes@),
        r is Some ==> r->0@ == decode_utf8(bytes@),
{
    std::str::from_utf8(bytes).ok()
}

/// Relies on `Encoding::decode` of `encoding::all::GBK` with
/// `DecoderTrap::Replace`: the replacing trap writes U+FFFD for each error
/// and always lets decoding go on, so the call never fails.
#[verifier::external_body]
fn gbk_text(bytes: &[u8]) -> (r: Option<String>)
    ensures
        r is Some,
        r is Some ==> r->0@ == gbk_decoded(bytes@),
{
    GBK.decode(bytes, DecoderTrap::Replace).ok()
}

/// The text shown for the raw output `bytes` of a command: nothing for no
/// bytes, the characters they encode if they are UTF-8, else their GBK
/// reading.
pub open spec fn output_text(bytes: Seq<u8>) -> Seq<char> {
    if bytes.len() == 0 {
        Seq::empty()
    } else if valid_utf8(bytes) {
        decode_utf8(bytes)
    } else {
        gbk_decoded(bytes)
    }
}

/// Decodes one output stream of a command: UTF-8 where the bytes are UTF-8,
/// GBK (the usual code page of a Chinese Windows console) otherwise.
pub fn decode_output(bytes: &[u8]) -> (r: String)
    ensures
        r@ == output_text(bytes@),
{
    if bytes.len() == 0 {
        return String::new();
    }
    match utf8_text(bytes) {
        Some(s) => String::from_str(s),
        None => gbk_text(bytes).unwrap(),
    }
}

} // verus!
