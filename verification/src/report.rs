//! The in-memory pointer report and its two wire layouts.

use vstd::prelude::*;

verus! {

/// Length in bytes of a wide-layout report.
pub const WIDE_LEN: usize = 9;

/// Length in bytes of a narrow-layout report.
pub const NARROW_LEN: usize = 4;

/// Byte layout of a raw pointer report.
#[derive(Clone, Copy, Debug, PartialEq, Eq, Structural)]
pub enum ReportLayout {
    /// Four bytes: buttons, dx, dy, wheel, each axis a signed byte.
    Narrow,
    /// Nine bytes: a reserved byte, dx and dy as little-endian signed 16-bit
    /// values, buttons, wheel, two reserved bytes.
    Wide,
}

/// Why a raw buffer could not be decoded.
#[derive(Clone, Copy, Debug, PartialEq, Eq, Structural)]
pub enum DecodeError {
    /// Fewer bytes than the smallest recognised layout.
    TooShort,
}

/// One pointer sample: button mask, relative motion and scroll delta.
#[derive(Clone, Copy, Debug, PartialEq, Eq, Structural)]
pub struct MouseReport {
    /// Bit 0 is the primary button, bit 1 the secondary; other bits pass through.
    pub buttons: u8,
    pub dx: i16,
    pub dy: i16,
    pub wheel: i8,
}

/// The signed value that a byte holds in two's complement.
pub open spec fn signed8(b: u8) -> int {
    if b < 128 {
        b as int
    } else {
        b - 256
    }
}

/// The signed value of two bytes read as a little-endian 16-bit word.
pub open spec fn signed16_le(lo: u8, hi: u8) -> int {
    let word = lo + 256 * hi;
    if word < 32768 {
        word
    } else {
        word - 65536
    }
}

/// The unsigned byte that stands for `v` in two's complement.
pub open spec fn unsigned8(v: int) -> int {
    if v >= 0 {
        v
    } else {
        v + 256
    }
}

/// The unsigned 16-bit word that stands for `v` in two's complement.
pub open spec fn unsigned16(v: int) -> int {
    if v >= 0 {
        v
    } else {
        v + 65536
    }
}

/// `v` limited to the range of a signed byte.
pub open spec fn saturate8(v: int) -> int {
    if v < -128 {
        -128
    } else if v > 127 {
        127
    } else {
        v
    }
}

/// The layout that a buffer of `len` bytes is read under, if any.
pub open spec fn layout_for_len(len: nat) -> Result<ReportLayout, DecodeError> {
    if len >= 9 {
        Ok(ReportLayout::Wide)
    } else if len >= 4 {
        Ok(ReportLayout::Narrow)
    } else {
        Err(DecodeError::TooShort)
    }
}

/// What a raw buffer decodes to.
pub open spec fn decoded(raw: Seq<u8>) -> Result<MouseReport, DecodeError> {
    if raw.len() >= 9 {
        Ok(
            MouseReport {
                buttons: raw[5],
                dx: signed16_le(raw[1], raw[2]) as i16,
                dy: signed16_le(raw[3], raw[4]) as i16,
                wheel: signed8(raw[6]) as i8,
            },
        )
    } else if raw.len() >= 4 {
        Ok(
            MouseReport {
                buttons: raw[0],
                dx: signed8(raw[1]) as i16,
                dy: signed8(raw[2]) as i16,
                wheel: signed8(raw[3]) as i8,
            },
        )
    } else {
        Err(DecodeError::TooShort)
    }
}

/// The bytes that a report is written as under `layout`. The narrow layout
/// saturates each axis to the range of a signed byte.
pub open spec fn encoded(r: MouseReport, layout: ReportLayout) -> Seq<u8> {
    match layout {
        ReportLayout::Wide => seq![
            0u8,
            (unsigned16(r.dx as int) % 256) as u8,
            (unsigned16(r.dx as int) / 256) as u8,
            (unsigned16(r.dy as int) % 256) as u8,
            (unsigned16(r.dy as int) / 256) as u8,
            r.buttons,
            unsigned8(r.wheel as int) as u8,
            0u8,
            0u8,
        ],
        ReportLayout::Narrow => seq![
            r.buttons,
            unsigned8(saturate8(r.dx as int)) as u8,
            unsigned8(saturate8(r.dy as int)) as u8,
            unsigned8(r.wheel as int) as u8,
        ],
    }
}

impl ReportLayout {
    /// Number of bytes a report takes under this layout.
    pub open spec fn spec_byte_len(self) -> nat {
        match self {
            ReportLayout::Wide => 9,
            ReportLayout::Narrow => 4,
        }
    }

    /// Number of bytes a report takes under this layout.
    pub fn byte_len(self) -> (n: usize)
        ensures
            n == self.spec_byte_len(),
    {
        match self {
            ReportLayout::Wide => WIDE_LEN,
            ReportLayout::Narrow => NARROW_LEN,
        }
    }

    /// The layout under which a buffer of `len` bytes is decoded: wide from
    /// nine bytes on, narrow from four, none below that.
    pub fn for_len(len: usize) -> (r: Result<ReportLayout, DecodeError>)
        ensures
            r == layout_for_len(len as nat),
    {
        if len >= WIDE_LEN {
            Ok(ReportLayout::Wide)
        } else if len >= NARROW_LEN {
            Ok(ReportLayout::Narrow)
        } else {
            Err(DecodeError::TooShort)
        }
    }
}

fn byte_to_signed(b: u8) -> (v: i8)
    ensures
        v == signed8(b),
{
    if b < 128 {
        b as i8
    } else {
        (b as i16 - 256) as i8
    }
}

fn word_to_signed(lo: u8, hi: u8) -> (v: i16)
    ensures
        v == signed16_le(lo, hi),
{
    let word: i32 = lo as i32 + 256 * (hi as i32);
    if word < 32768 {
        word as i16
    } else {
        (word - 65536) as i16
    }
}

fn signed_to_byte(v: i8) -> (b: u8)
    ensures
        b == unsigned8(v as int),
{
    if v >= 0 {
        v as u8
    } else {
        (v as i16 + 256) as u8
    }
}

fn narrow_axis(v: i16) -> (b: u8)
    ensures
        b == unsigned8(saturate8(v as int)),
{
    if v < -128 {
        128
    } else if v > 127 {
        127
    } else if v >= 0 {
        v as u8
    } else {
        (v + 256) as u8
    }
}

fn signed_to_word(v: i16) -> (w: u16)
    ensures
        w == unsigned16(v as int),
{
    if v >= 0 {
        v as u16
    } else {
        (v as i32 + 65536) as u16
    }
}

impl MouseReport {
    /// Whether both axes lie in the range that `layout` can carry.
    pub open spec fn fits(self, layout: ReportLayout) -> bool {
        match layout {
            ReportLayout::Wide => true,
            ReportLayout::Narrow => -128 <= self.dx <= 127 && -128 <= self.dy <= 127,
        }
    }

    /// Whether the report carries no motion, no button and no scroll.
    pub open spec fn spec_is_idle(self) -> bool {
        self.buttons == 0 && self.dx == 0 && self.dy == 0 && self.wheel == 0
    }

    /// Decodes a raw report. Nine bytes or more are read as the wide layout,
    /// four to eight as the narrow one; anything shorter is `TooShort`.
    pub fn from_bytes(data: &[u8]) -> (r: Result<MouseReport, DecodeError>)
        ensures
            r == decoded(data@),
    {
        if data.len() >= WIDE_LEN {
            Ok(
                MouseReport {
                    buttons: data[5],
                    dx: word_to_signed(data[1], data[2]),
                    dy: word_to_signed(data[3], data[4]),
                    wheel: byte_to_signed(data[6]),
                },
            )
        } else if data.len() >= NARROW_LEN {
            Ok(
                MouseReport {
                    buttons: data[0],
                    dx: byte_to_signed(data[1]) as i16,
                    dy: byte_to_signed(data[2]) as i16,
                    wheel: byte_to_signed(data[3]),
                },
            )
        } else {
            Err(DecodeError::TooShort)
        }
    }

    /// Encodes the report under `layout`: nine bytes for the wide layout,
    /// four for the narrow one.
    pub fn to_bytes(&self, layout: ReportLayout) -> (bytes: Vec<u8>)
        ensures
            bytes@ == encoded(*self, layout),
    {
        let mut bytes: Vec<u8> = Vec::new();
        match layout {
            ReportLayout::Wide => {
                let x: u16 = signed_to_word(self.dx);
                let y: u16 = signed_to_word(self.dy);
                bytes.push(0);
                bytes.push((x % 256) as u8);
                bytes.push((x / 256) as u8);
                bytes.push((y % 256) as u8);
                bytes.push((y / 256) as u8);
                bytes.push(self.buttons);
                bytes.push(signed_to_byte(self.wheel));
                bytes.push(0);
                bytes.push(0);
            },
            ReportLayout::Narrow => {
                bytes.push(self.buttons);
                bytes.push(narrow_axis(self.dx));
                bytes.push(narrow_axis(self.dy));
                bytes.push(signed_to_byte(self.wheel));
            },
        }
        bytes
    }

    /// Whether the report carries no motion, no button and no scroll.
    pub fn is_idle(&self) -> (idle: bool)
        ensures
            idle == self.spec_is_idle(),
    {
        self.buttons == 0 && self.dx == 0 && self.dy == 0 && self.wheel == 0
    }
}

/// Decoding what was encoded gives the report back, for every report whose
/// axes fit the layout; the encoded length selects that same layout.
pub proof fn lemma_round_trip(r: MouseReport, layout: ReportLayout)
    requires
        r.fits(layout),
    ensures
        decoded(encoded(r, layout)) == Ok::<MouseReport, DecodeError>(r),
        layout_for_len(encoded(r, layout).len()) == Ok::<ReportLayout, DecodeError>(layout),
        encoded(r, layout).len() == layout.spec_byte_len(),
{
}

/// Encoding what was decoded reproduces the bytes that decoding read: a
/// narrow report byte for byte on its four bytes, a wide one on the six
/// bytes it uses, with zero in the three reserved places.
pub proof fn lemma_decode_then_encode(raw: Seq<u8>)
    requires
        raw.len() >= 4,
    ensures
        decoded(raw) is Ok,
        layout_for_len(raw.len()) is Ok,
        decoded(raw)->Ok_0.fits(layout_for_len(raw.len())->Ok_0),
        raw.len() < 9 ==> encoded(decoded(raw)->Ok_0, ReportLayout::Narrow) == raw.subrange(0, 4),
        raw.len() >= 9 ==> encoded(decoded(raw)->Ok_0, ReportLayout::Wide) == raw.subrange(
            0,
            9,
        ).update(0, 0u8).update(7, 0u8).update(8, 0u8),
{
}

} // verus!
