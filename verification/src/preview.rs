//! Previews: a whole remote file handed to the UI either as base64
//! text or as UTF-8 text. The read goes through the dispatch layer;
//! the encodings are outside calls whose results are named here.

use vstd::prelude::*;

use crate::errors::{not_connected_msg};
use crate::registry::{AppState, Routed};

verus! {

/// What base64's standard padded alphabet encodes the bytes to: a
/// function of the bytes alone.
pub uninterp spec fn base64_of(bytes: Seq<u8>) -> Seq<char>;

/// Whether the bytes are valid UTF-8: a function of the bytes alone.
pub uninterp spec fn utf8_valid(bytes: Seq<u8>) -> bool;

/// The characters the bytes decode to when they are valid UTF-8: a
/// function of the bytes alone.
pub uninterp spec fn utf8_chars_of(bytes: Seq<u8>) -> Seq<char>;

/// Relies on base64's Engine::encode with the STANDARD engine:
/// standard alphabet, padded, four output characters for every three
/// input bytes; the result depends on the bytes alone.
#[verifier::external_body]
fn encode_base64(data: &[u8]) -> (r: String)
    ensures
        r@ == base64_of(data@),
        r@.len() == 4 * ((data@.len() + 2) / 3),
{
    base64::Engine::encode(&base64::engine::general_purpose::STANDARD, data)
}

/// Relies on String::from_utf8: succeeds exactly on valid UTF-8 and
/// decodes it; both depend on the bytes alone.
#[verifier::external_body]
fn decode_utf8(data: Vec<u8>) -> (r: Option<String>)
    ensures
        r is Some <==> utf8_valid(data@),
        r is Some ==> r->0@ == utf8_chars_of(data@),
{
    String::from_utf8(data).ok()
}

/// Reads the remote file through the dispatch layer and encodes it as
/// base64 for preview; for SMB the caller performs the returned local
/// read and encodes the bytes with `encode_preview_bytes`.
pub fn preview_file_base64(state: &mut AppState, remote_path: &str) -> (r: Result<
    Routed<String>,
    String,
>)
    ensures
        old(state).connection is Disconnected ==> r is Err && r->Err_0@ == not_connected_msg()
            && *final(state) == *old(state),
        r is Err ==> (r->Err_0@ == not_connected_msg() <==> old(
            state,
        ).connection is Disconnected),
        r matches Result::Ok(Routed::Done(s)) ==> exists|b: Seq<u8>| s@ == base64_of(b),
        r is Ok ==> (r->Ok_0 is Local <==> old(state).connection is Smb),
{
    match state.read_whole_file(remote_path) {
        Result::Ok(Routed::Done(data)) => {
            let encoded = encode_base64(data.as_slice());
            Result::Ok(Routed::Done(encoded))
        },
        Result::Ok(Routed::Local(action)) => Result::Ok(Routed::Local(action)),
        Result::Err(e) => Result::Err(e),
    }
}

/// Encodes bytes the caller read locally (the SMB side of the
/// preview) as base64.
pub fn encode_preview_bytes(data: &[u8]) -> (r: String)
    ensures
        r@ == base64_of(data@),
        r@.len() == 4 * ((data@.len() + 2) / 3),
{
    encode_base64(data)
}

/// Reads the remote file through the dispatch layer and decodes it as
/// UTF-8 text for preview; a file that is not valid UTF-8 is the
/// text-decode failure. For SMB the caller performs the returned
/// local read and decodes with `decode_preview_text`.
pub fn preview_file_text(state: &mut AppState, remote_path: &str) -> (r: Result<
    Routed<String>,
    String,
>)
    ensures
        old(state).connection is Disconnected ==> r is Err && r->Err_0@ == not_connected_msg()
            && *final(state) == *old(state),
        r matches Result::Ok(Routed::Done(s)) ==> exists|b: Seq<u8>|
            utf8_valid(b) && s@ == utf8_chars_of(b),
        r is Ok ==> (r->Ok_0 is Local <==> old(state).connection is Smb),
{
    match state.read_whole_file(remote_path) {
        Result::Ok(Routed::Done(data)) => {
            match decode_utf8(data) {
                Option::Some(text) => Result::Ok(Routed::Done(text)),
                Option::None => Result::Err(
                    String::from_str("File cannot be read as text"),
                ),
            }
        },
        Result::Ok(Routed::Local(action)) => Result::Ok(Routed::Local(action)),
        Result::Err(e) => Result::Err(e),
    }
}

/// Decodes bytes the caller read locally (the SMB side of the
/// preview) as UTF-8 text; fails exactly on invalid UTF-8.
pub fn decode_preview_text(data: Vec<u8>) -> (r: Result<String, String>)
    ensures
        r is Ok <==> utf8_valid(data@),
        r is Ok ==> r->Ok_0@ == utf8_chars_of(data@),
{
    match decode_utf8(data) {
        Option::Some(text) => Result::Ok(text),
        Option::None => Result::Err(String::from_str("File cannot be read as text")),
    }
}

} // verus!
