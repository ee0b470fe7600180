//! Verified core of a pointer-report relay.
//!
//! Reports read from a HID device are decoded ([`report`]), transformed by
//! sensitivity, deadzone and button remapping ([`modifier`], with the exact
//! arithmetic in [`multiplier`]), handed through a bounded queue
//! ([`channel`], [`message`]) and written to a serial line as text frames
//! ([`frame`]). The loops that do this are state machines ([`capture`],
//! [`transmit`]) with a bounded backoff after faults ([`backoff`]), and their
//! joint lifetime is supervised ([`orchestrator`]). [`discovery`] tells which
//! input devices are worth listing. Nothing here performs input or output:
//! a driver carries out the actions that the state machines return and
//! reports back what happened.

pub mod backoff;
pub mod capture;
pub mod channel;
pub mod discovery;
pub mod frame;
pub mod message;
pub mod modifier;
pub mod multiplier;
pub mod orchestrator;
pub mod report;
pub mod transmit;
