use vstd::prelude::*;
use vstd::string::StringSliceAdditionalSpecFns;

verus! {

/// Request code that asks the device for its accessory protocol version.
pub const GET_PROTOCOL: u8 = 51;

/// Request code that sends one identification string.
pub const SEND_STRING: u8 = 52;

/// Request code that asks the device to start accessory mode.
pub const REQUEST_START: u8 = 53;

/// Time each control transfer may take, in seconds.
pub const TIMEOUT_SECS: u64 = 1;

/// Identification string for the manufacturer slot (index 0).
pub const MANUFACTURER: &'static str = "Android";

/// Identification string for the model slot (index 1).
pub const MODEL: &'static str = "Android Auto";

/// Number of control transfers in a complete handshake.
pub const HANDSHAKE_TRANSFERS: u8 = 4;

/// `bmRequestType` of a vendor request to the device: device-to-host when
/// `inbound`, host-to-device otherwise.
pub open spec fn vendor_request_type(inbound: bool) -> u8 {
    if inbound {
        0xC0
    } else {
        0x40
    }
}

/// Relies on rusb::request_type: it ors the direction bit (`In` = 0x80, `Out` =
/// 0), the vendor type bits (0x40) and the device recipient bits (0).
#[verifier::external_body]
fn request_type(inbound: bool) -> (r: u8)
    ensures
        r == vendor_request_type(inbound),
{
    let direction = if inbound {
        rusb::Direction::In
    } else {
        rusb::Direction::Out
    };
    rusb::request_type(direction, rusb::RequestType::Vendor, rusb::Recipient::Device)
}

/// One vendor control transfer on the default endpoint.
#[derive(Clone, Copy, Debug, PartialEq, Eq)]
pub enum Transfer {
    /// Device-to-host: read `length` bytes.
    Read { request_type: u8, request: u8, value: u16, index: u16, length: usize },
    /// Host-to-device: send `data`.
    Write { request_type: u8, request: u8, value: u16, index: u16, data: &'static [u8] },
}

/// Transfer `step` (counted from 0) of the handshake, as the wire table fixes it:
/// the version query, the manufacturer string, the model string, the start request.
pub open spec fn is_handshake_transfer(t: Transfer, step: int) -> bool {
    match t {
        Transfer::Read { request_type, request, value, index, length } => {
            &&& step == 0
            &&& request_type == vendor_request_type(true)
            &&& request == GET_PROTOCOL
            &&& value == 0
            &&& index == 0
            &&& length == 2
        },
        Transfer::Write { request_type, request, value, index, data } => {
            &&& request_type == vendor_request_type(false)
            &&& value == 0
            &&& {
                ||| step == 1 && request == SEND_STRING && index == 0 && data@
                    == MANUFACTURER.spec_bytes()
                ||| step == 2 && request == SEND_STRING && index == 1 && data@
                    == MODEL.spec_bytes()
                ||| step == 3 && request == REQUEST_START && index == 0 && data@.len() == 0
            }
        },
    }
}

/// The transfer that step `step` of the handshake issues.
pub fn handshake_transfer(step: u8) -> (t: Transfer)
    requires
        step < HANDSHAKE_TRANSFERS,
    ensures
        is_handshake_transfer(t, step as int),
{
    if step == 0 {
        Transfer::Read {
            request_type: request_type(true),
            request: GET_PROTOCOL,
            value: 0,
            index: 0,
            length: 2,
        }
    } else if step == 1 {
        Transfer::Write {
            request_type: request_type(false),
            request: SEND_STRING,
            value: 0,
            index: 0,
            data: MANUFACTURER.as_bytes(),
        }
    } else if step == 2 {
        Transfer::Write {
            request_type: request_type(false),
            request: SEND_STRING,
            value: 0,
            index: 1,
            data: MODEL.as_bytes(),
        }
    } else {
        let empty: &'static [u8] = &[];
        Transfer::Write {
            request_type: request_type(false),
            request: REQUEST_START,
            value: 0,
            index: 0,
            data: empty,
        }
    }
}

} // verus!
