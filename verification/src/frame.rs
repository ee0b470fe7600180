//! The text framing used on the serial link: the tag `HID:`, the payload in
//! lowercase hexadecimal, and a newline.

use vstd::prelude::*;

verus! {

/// Longest payload that can be framed: twice its length must still be a
/// valid allocation size on every supported machine.
pub const MAX_PAYLOAD_LEN: usize = 0x3fff_ffff;

/// ASCII code of the lowercase hexadecimal digit for `nibble`, for `0 <= nibble < 16`.
pub open spec fn hex_digit(nibble: int) -> u8 {
    if nibble < 10 {
        (48 + nibble) as u8
    } else {
        (87 + nibble) as u8
    }
}

/// The ASCII text of `data` in lowercase hexadecimal: two digits per byte,
/// the high nibble first.
pub open spec fn lower_hex(data: Seq<u8>) -> Seq<u8> {
    Seq::new(
        2 * data.len(),
        |i: int|
            if i % 2 == 0 {
                hex_digit(data[i / 2] as int / 16)
            } else {
                hex_digit(data[i / 2] as int % 16)
            },
    )
}

/// The tag that opens every frame: the ASCII text `HID:`.
pub open spec fn frame_tag() -> Seq<u8> {
    seq![72u8, 73u8, 68u8, 58u8]
}

/// The line that carries `payload` on the wire.
pub open spec fn framed(payload: Seq<u8>) -> Seq<u8> {
    frame_tag() + lower_hex(payload) + seq![10u8]
}

/// Calls `hex::encode` and takes the bytes of the string it returns. That
/// string holds, for each input byte in order, the lowercase hexadecimal
/// digit of its high nibble and then that of its low nibble; this is taken
/// on trust from the `hex` crate. The length bound keeps the string's size
/// within what an allocation may hold.
#[verifier::external_body]
fn hex_encode(data: &[u8]) -> (text: Vec<u8>)
    requires
        data@.len() <= MAX_PAYLOAD_LEN,
    ensures
        text@ == lower_hex(data@),
{
    hex::encode(data).into_bytes()
}

/// Builds the wire frame for a payload: `HID:`, the payload in lowercase
/// hexadecimal, a single newline.
pub fn frame(payload: &[u8]) -> (line: Vec<u8>)
    requires
        payload@.len() <= MAX_PAYLOAD_LEN,
    ensures
        line@ == framed(payload@),
{
    let mut line: Vec<u8> = Vec::new();
    line.push(72);
    line.push(73);
    line.push(68);
    line.push(58);
    let mut digits: Vec<u8> = hex_encode(payload);
    line.append(&mut digits);
    line.push(10);
    line
}

/// A frame is five bytes longer than twice its payload, opens with the tag
/// and ends in the newline; between them every byte is a lowercase
/// hexadecimal digit.
pub proof fn lemma_frame_shape(payload: Seq<u8>)
    ensures
        framed(payload).len() == 2 * payload.len() + 5,
        framed(payload).subrange(0, 4) == frame_tag(),
        framed(payload)[framed(payload).len() - 1] == 10u8,
        forall|i: int|
            4 <= i < framed(payload).len() - 1 ==> {
                let c = #[trigger] framed(payload)[i];
                48 <= c <= 57 || 97 <= c <= 102
            },
{
    let line = framed(payload);
    assert forall|i: int| 4 <= i < line.len() - 1 implies {
        let c = #[trigger] line[i];
        48 <= c <= 57 || 97 <= c <= 102
    } by {
        let j = i - 4;
        let b = payload[j / 2] as int;
        assert(line[i] == lower_hex(payload)[j]);
        assert(0 <= b / 16 < 16);
        assert(0 <= b % 16 < 16);
    }
}

} // verus!
