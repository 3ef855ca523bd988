//! Host-side handshake that switches a USB device into Android accessory mode.
//!
//! The library holds the decisions of the handshake: how the protocol version is
//! decoded, which control transfers are issued and in what order, when the
//! sequence stops, which devices are probed and how failures are classified.
//! The caller owns the USB session: it performs each requested action and feeds
//! the outcome back to the engine.
mod codec;
mod engine;
mod error;
mod mock;
mod protocol;
mod select;

pub use codec::{as_version, spec_version};
pub use engine::{
    is_action_of, outcome_view, reply_version, spec_advance, Action, Handshake,
};
pub use error::{
    spec_exit_code, spec_failure_of, spec_transport_code, transport_codes_are_distinct, Failure,
    HandshakeError, TransportError,
};
pub use mock::{
    failed_transfer_stops_handshake, supported_version_succeeds_iff_all_transfers_do,
    unsupported_version_ends_after_query,
    follows_handshake, probe_result, query_accepted, query_version, reply_of, transfers_attempted,
    MockDevice,
};
pub use protocol::{
    handshake_transfer, is_handshake_transfer, vendor_request_type, Transfer, GET_PROTOCOL,
    HANDSHAKE_TRANSFERS, MANUFACTURER, MODEL, REQUEST_START, SEND_STRING, TIMEOUT_SECS,
};
pub use select::{is_selected, is_selection, matches_filter, select_devices, DeviceRef};
