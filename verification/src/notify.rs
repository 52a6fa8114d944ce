//! The request that makes the system show a notification.
//!
//! A notification is a structure of fixed size that is written to the
//! notification device. Of its fields the dumper sets three; the reserved
//! ones and those of unknown meaning stay zero.

use crate::dump::Status;
use vstd::prelude::*;

verus! {

/// Size of the structure.
pub const REQUEST_SIZE: usize = 3120;

/// Offset of the 32-bit field `target_id`.
pub const TARGET_ID: usize = 16;

/// Offset of the byte `use_icon_image_uri`.
pub const USE_ICON_IMAGE_URI: usize = 44;

/// Offset of the field `message`.
pub const MESSAGE: usize = 45;

/// Size of the field `message`. The text in it ends with a zero byte.
pub const MESSAGE_SIZE: usize = 1024;

/// Number of bytes of the message that the structure takes: all of them, up
/// to one less than the field holds.
pub open spec fn copied(msg: Seq<u8>) -> int {
    if msg.len() < MESSAGE_SIZE - 1 {
        msg.len() as int
    } else {
        MESSAGE_SIZE - 1
    }
}

/// The byte at offset `i` of the request that shows `msg`: the target is -1,
/// the icon is to be used, and the message field starts with the message.
pub open spec fn request_byte(msg: Seq<u8>, i: int) -> u8 {
    if TARGET_ID <= i < TARGET_ID + 4 {
        0xff
    } else if i == USE_ICON_IMAGE_URI {
        1
    } else if MESSAGE <= i < MESSAGE + copied(msg) {
        msg[i - MESSAGE]
    } else {
        0
    }
}

/// The request that shows `msg`.
pub open spec fn request(msg: Seq<u8>) -> Seq<u8> {
    Seq::new(REQUEST_SIZE as nat, |i: int| request_byte(msg, i))
}

/// Builds the request that shows `msg`. A message that is too long for its
/// field is cut off.
pub fn build_request(msg: &[u8]) -> (data: Vec<u8>)
    ensures
        data@ == request(msg@),
{
    let len: usize = if msg.len() < MESSAGE_SIZE - 1 {
        msg.len()
    } else {
        MESSAGE_SIZE - 1
    };
    let mut data: Vec<u8> = Vec::new();
    let mut i: usize = 0;
    while i < REQUEST_SIZE
        invariant
            i <= REQUEST_SIZE,
            len == copied(msg@),
            data@.len() == i,
            forall|j: int| 0 <= j < i ==> data@[j] == request_byte(msg@, j),
        decreases REQUEST_SIZE - i,
    {
        let byte: u8 = if TARGET_ID <= i && i < TARGET_ID + 4 {
            0xff
        } else if i == USE_ICON_IMAGE_URI {
            1
        } else if MESSAGE <= i && i < MESSAGE + len {
            msg[i - MESSAGE]
        } else {
            0
        };
        data.push(byte);
        i += 1;
    }
    assert(data@ =~= request(msg@));
    data
}

/// Builds the request that tells the user how a dump ended.
pub fn status_request(status: Status) -> (data: Vec<u8>)
    ensures
        data@ == request(vstd::utf8::encode_utf8(status.spec_message())),
{
    build_request(status.message().as_bytes())
}

} // verus!
