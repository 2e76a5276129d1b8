//! Websocket interface related message types.

use vstd::prelude::*;

verus! {

/// WebSocket message types that can be received from the server.
#[derive(Debug, Clone)]
pub enum WebsocketMessage {
    /// New SMS message received.
    IncomingMessage(crate::sms::SmsMessage),
    /// SMS message being sent from API or other connected client.
    OutgoingMessage(crate::sms::SmsMessage),
    /// Delivery report update.
    DeliveryReport {
        /// The target `message_id` this delivery report applies to.
        /// This is determined from the `message_reference` and sender.
        message_id: i64,
        /// The received delivery report.
        report: crate::sms::SmsPartialDeliveryReport,
    },
    /// Modem hat connection status update.
    /// This can be either: Startup, Online, `ShuttingDown`, Offline
    ModemStatusUpdate {
        /// Previous state from last update.
        previous: crate::modem::ModemStatusUpdateState,
        /// Current state after update.
        current: crate::modem::ModemStatusUpdateState,
    },
    /// WebSocket connection status update (client-side only).
    /// This message is generated locally when there is a connection or disconnection.
    WebsocketConnectionUpdate {
        /// Connection status: true = connected, false = disconnected
        connected: bool,
        /// If connection is false, will the client attempt to automatically reconnect?
        reconnect: bool,
    },
}

impl PartialEq for WebsocketMessage {
    fn eq(&self, other: &Self) -> (r: bool) {
        match (self, other) {
            (
                WebsocketMessage::IncomingMessage(a),
                WebsocketMessage::IncomingMessage(b),
            ) => a == b,
            (
                WebsocketMessage::OutgoingMessage(a),
                WebsocketMessage::OutgoingMessage(b),
            ) => a == b,
            (
                WebsocketMessage::DeliveryReport { message_id: a_id, report: a_report },
                WebsocketMessage::DeliveryReport { message_id: b_id, report: b_report },
            ) => a_id == b_id && a_report == b_report,
            (
                WebsocketMessage::ModemStatusUpdate { previous: a_previous, current: a_current },
                WebsocketMessage::ModemStatusUpdate { previous: b_previous, current: b_current },
            ) => a_previous == b_previous && a_current == b_current,
            (
                WebsocketMessage::WebsocketConnectionUpdate {
                    connected: a_connected,
                    reconnect: a_reconnect,
                },
                WebsocketMessage::WebsocketConnectionUpdate {
                    connected: b_connected,
                    reconnect: b_reconnect,
                },
            ) => a_connected == b_connected && a_reconnect == b_reconnect,
            _ => false,
        }
    }
}

impl vstd::std_specs::cmp::PartialEqSpecImpl for WebsocketMessage {
    open spec fn obeys_eq_spec() -> bool {
        true
    }

    open spec fn eq_spec(&self, other: &Self) -> bool {
        match (self, other) {
            (
                WebsocketMessage::IncomingMessage(a),
                WebsocketMessage::IncomingMessage(b),
            ) => crate::sms::spec_message_eq(*a, *b),
            (
                WebsocketMessage::OutgoingMessage(a),
                WebsocketMessage::OutgoingMessage(b),
            ) => crate::sms::spec_message_eq(*a, *b),
            (
                WebsocketMessage::DeliveryReport { message_id: a_id, report: a_report },
                WebsocketMessage::DeliveryReport { message_id: b_id, report: b_report },
            ) => a_id == b_id && crate::sms::spec_report_eq(*a_report, *b_report),
            (
                WebsocketMessage::ModemStatusUpdate { previous: a_previous, current: a_current },
                WebsocketMessage::ModemStatusUpdate { previous: b_previous, current: b_current },
            ) => a_previous == b_previous && a_current == b_current,
            (
                WebsocketMessage::WebsocketConnectionUpdate {
                    connected: a_connected,
                    reconnect: a_reconnect,
                },
                WebsocketMessage::WebsocketConnectionUpdate {
                    connected: b_connected,
                    reconnect: b_reconnect,
                },
            ) => a_connected == b_connected && a_reconnect == b_reconnect,
            _ => false,
        }
    }
}

} // verus!
