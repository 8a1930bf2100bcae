//! Decisions around the ESP-IDF non-volatile store.
//!
//! The store itself is reached through the ESP-IDF C API by the hardware
//! layer. These functions hold what it decides from the return codes:
//! when flash initialisation needs an erase and a retry, when a stored
//! entry counts as present, and how a stored string is turned back into
//! text (the stored size includes the terminating NUL byte).

use vstd::prelude::*;
use vstd::utf8::{decode_utf8, encode_utf8, valid_utf8};

verus! {

/// `nvs_open` mode: read and write.
pub const NVS_READWRITE: i32 = 0x01;

/// ESP-IDF error: the NVS partition has no free pages.
pub const ESP_ERR_NVS_NO_FREE_PAGES: i32 = 0x110D;

/// ESP-IDF error: the NVS partition holds data of a newer format.
pub const ESP_ERR_NVS_NEW_VERSION_FOUND: i32 = 0x1110;

/// Whether the result of `nvs_flash_init` calls for erasing the partition
/// and initialising again.
pub fn init_needs_erase(code: i32) -> (erase: bool)
    ensures
        erase == (code == ESP_ERR_NVS_NO_FREE_PAGES || code == ESP_ERR_NVS_NEW_VERSION_FOUND),
{
    code == ESP_ERR_NVS_NO_FREE_PAGES || code == ESP_ERR_NVS_NEW_VERSION_FOUND
}

/// The size of a stored entry from a size query: present only when the
/// query succeeded (status 0) and the size is not zero.
pub fn stored_size(status: i32, len: usize) -> (size: Option<usize>)
    ensures
        size == (if status == 0 && len > 0 {
            Some(len)
        } else {
            None::<usize>
        }),
{
    if status == 0 && len > 0 {
        Some(len)
    } else {
        None
    }
}

/// Calls `String::from_utf8(bytes).ok()` from std. Claimed, as std
/// documents: the result is present exactly when the bytes are valid UTF-8,
/// and then holds the characters they encode.
#[verifier::external_body]
fn utf8_string(bytes: Vec<u8>) -> (s: Option<String>)
    ensures
        s is Some <==> valid_utf8(bytes@),
        s matches Some(t) ==> t@ == decode_utf8(bytes@),
{
    String::from_utf8(bytes).ok()
}

/// The bytes of a stored string read into `buf` with stored size `len`:
/// the first `len - 1` bytes (the size counts the terminating NUL), or the
/// whole buffer when it is shorter.
pub open spec fn stored_text(buf: Seq<u8>, len: int) -> Seq<u8> {
    if len - 1 <= buf.len() {
        buf.subrange(0, len - 1)
    } else {
        buf
    }
}

/// The text of a stored string read into `buf`, whose stored size `len`
/// counts the terminating NUL: the first `len - 1` bytes, when they are
/// valid UTF-8.
pub fn stored_string(buf: Vec<u8>, len: usize) -> (s: Option<String>)
    requires
        len >= 1,
    ensures
        s is Some <==> valid_utf8(stored_text(buf@, len as int)),
        s matches Some(t) ==> t@ == decode_utf8(stored_text(buf@, len as int)),
{
    let mut buf = buf;
    buf.truncate(len - 1);
    utf8_string(buf)
}

/// Reading back a stored string gives the text that was stored: a value is
/// stored as its UTF-8 bytes followed by a NUL, with that length as its
/// size, and decoding those bytes yields the value again (the empty string
/// included).
pub proof fn lemma_stored_string_round_trip(value: Seq<char>)
    ensures
        ({
            let buf = encode_utf8(value).push(0u8);
            &&& stored_text(buf, buf.len() as int) == encode_utf8(value)
            &&& valid_utf8(stored_text(buf, buf.len() as int))
            &&& decode_utf8(stored_text(buf, buf.len() as int)) == value
        }),
{
    let buf = encode_utf8(value).push(0u8);
    assert(buf.subrange(0, buf.len() - 1) =~= encode_utf8(value));
    vstd::utf8::encode_utf8_valid_utf8(value);
    vstd::utf8::encode_utf8_decode_utf8(value);
}

} // verus!
