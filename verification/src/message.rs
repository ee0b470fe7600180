//! The unit handed from the capture loops to the transmit loop.

use vstd::prelude::*;
use crate::report::MouseReport;
use crate::report::ReportLayout;
use crate::report::encoded;
use crate::frame::MAX_PAYLOAD_LEN;

verus! {

/// The sort of device that a message came from.
#[derive(Clone, Copy, Debug, PartialEq, Eq, Structural)]
pub enum ReportOrigin {
    Pointer,
    Auxiliary,
}

/// What a message carries.
#[derive(Clone, Debug, PartialEq, Eq)]
pub enum RelayPayload {
    /// A transformed pointer report, the layout it was decoded under, and
    /// whether the transform changed it.
    Pointer { report: MouseReport, layout: ReportLayout, modified: bool },
    /// The raw bytes of a report that is no pointer report, carried as they came.
    Opaque(Vec<u8>),
}

/// One message on the relay channel.
#[derive(Clone, Debug, PartialEq, Eq)]
pub struct RelayMessage {
    pub origin: ReportOrigin,
    pub payload: RelayPayload,
}

impl RelayPayload {
    /// The bytes that go into the frame for this payload.
    pub open spec fn wire_bytes(self) -> Seq<u8> {
        match self {
            RelayPayload::Pointer { report, layout, modified } => encoded(report, layout),
            RelayPayload::Opaque(bytes) => bytes@,
        }
    }

    /// Whether the payload is a pointer report that its transform changed.
    pub open spec fn spec_is_modified(self) -> bool {
        match self {
            RelayPayload::Pointer { report, layout, modified } => modified,
            RelayPayload::Opaque(bytes) => false,
        }
    }

    /// Whether the payload is short enough to be framed.
    pub open spec fn frameable(self) -> bool {
        self.wire_bytes().len() <= MAX_PAYLOAD_LEN
    }

    /// Whether the payload is short enough to be framed.
    pub fn fits_frame(&self) -> (fits: bool)
        ensures
            fits == self.frameable(),
    {
        match self {
            RelayPayload::Pointer { report: _, layout: _, modified: _ } => true,
            RelayPayload::Opaque(bytes) => bytes.len() <= MAX_PAYLOAD_LEN,
        }
    }

    /// The bytes that go into the frame for this payload.
    pub fn to_wire_bytes(&self) -> (bytes: Vec<u8>)
        ensures
            bytes@ == self.wire_bytes(),
    {
        match self {
            RelayPayload::Pointer { report, layout, modified: _ } => report.to_bytes(*layout),
            RelayPayload::Opaque(bytes) => bytes.clone(),
        }
    }

    /// Whether the payload is a pointer report that its transform changed.
    pub fn is_modified(&self) -> (modified: bool)
        ensures
            modified == self.spec_is_modified(),
    {
        match self {
            RelayPayload::Pointer { report: _, layout: _, modified } => *modified,
            RelayPayload::Opaque(_) => false,
        }
    }
}

} // verus!
