use sms_gateway_types::events::Event;
use sms_gateway_types::events::EventKind;
use sms_gateway_types::events::ParseError;
use sms_gateway_types::modem::ModemStatusUpdateState;
use sms_gateway_types::sms::SmsDeliveryReportStatus;
use sms_gateway_types::sms::SmsPartialDeliveryReport;

#[test]
fn to_bit_assigns_declaration_order_bits() {
    assert_eq!(EventKind::IncomingMessage.to_bit(), 1 << 0);
    assert_eq!(EventKind::OutgoingMessage.to_bit(), 1 << 1);
    assert_eq!(EventKind::DeliveryReport.to_bit(), 1 << 2);
    assert_eq!(EventKind::ModemStatusUpdate.to_bit(), 1 << 3);
    assert_eq!(EventKind::GNSSPositionReport.to_bit(), 1 << 4);
    assert_eq!(EventKind::WebsocketConnectionUpdate.to_bit(), 1 << 5);
}

#[test]
fn to_bit_is_injective() {
    let kinds = [
        EventKind::IncomingMessage,
        EventKind::OutgoingMessage,
        EventKind::DeliveryReport,
        EventKind::ModemStatusUpdate,
        EventKind::GNSSPositionReport,
        EventKind::WebsocketConnectionUpdate,
    ];
    assert_eq!(kinds.len(), EventKind::COUNT);
    for a in kinds {
        for b in kinds {
            assert_eq!(a.to_bit() == b.to_bit(), a == b);
        }
    }
}

#[test]
fn all_bits_covers_server_kinds_only() {
    let mask = EventKind::all_bits();
    assert_eq!(mask, 0x1F);
    assert_ne!(mask & EventKind::IncomingMessage.to_bit(), 0);
    assert_ne!(mask & EventKind::OutgoingMessage.to_bit(), 0);
    assert_ne!(mask & EventKind::DeliveryReport.to_bit(), 0);
    assert_ne!(mask & EventKind::ModemStatusUpdate.to_bit(), 0);
    assert_ne!(mask & EventKind::GNSSPositionReport.to_bit(), 0);
}

/// The "all server events" mask never carries the client-local
/// websocket-connection bit.
#[test]
fn all_bits_excludes_websocket_connection_update() {
    assert_eq!(
        EventKind::all_bits() & EventKind::WebsocketConnectionUpdate.to_bit(),
        0
    );
}

#[test]
fn events_to_mask_folds_bits() {
    assert_eq!(EventKind::events_to_mask(&[]), 0);
    assert_eq!(
        EventKind::events_to_mask(&[EventKind::IncomingMessage]),
        0x01
    );
    assert_eq!(
        EventKind::events_to_mask(&[
            EventKind::IncomingMessage,
            EventKind::DeliveryReport,
            EventKind::GNSSPositionReport,
        ]),
        0x01 | 0x04 | 0x10
    );
}

/// Duplicates are idempotent and order does not matter.
#[test]
fn events_to_mask_is_idempotent() {
    let kinds = [
        EventKind::IncomingMessage,
        EventKind::OutgoingMessage,
        EventKind::DeliveryReport,
        EventKind::ModemStatusUpdate,
        EventKind::GNSSPositionReport,
        EventKind::WebsocketConnectionUpdate,
    ];
    for a in kinds {
        for b in kinds {
            let duplicated = EventKind::events_to_mask(&[a, a, b]);
            let plain = EventKind::events_to_mask(&[a, b]);
            let swapped = EventKind::events_to_mask(&[b, a]);
            assert_eq!(duplicated, plain);
            assert_eq!(swapped, plain);
        }
    }
}

#[test]
fn parse_accepts_known_tokens() {
    assert_eq!(
        EventKind::parse("incoming"),
        Ok(EventKind::IncomingMessage)
    );
    assert_eq!(
        EventKind::parse("outgoing"),
        Ok(EventKind::OutgoingMessage)
    );
    assert_eq!(EventKind::parse("delivery"), Ok(EventKind::DeliveryReport));
    assert_eq!(
        EventKind::parse("modem_status_update"),
        Ok(EventKind::ModemStatusUpdate)
    );
    assert_eq!(
        EventKind::parse("websocket_connection_upgrade"),
        Ok(EventKind::WebsocketConnectionUpdate)
    );
    assert_eq!(
        EventKind::parse("gnss_position_report"),
        Ok(EventKind::GNSSPositionReport)
    );
}

#[test]
fn parse_rejects_unknown_token_naming_it() {
    match EventKind::parse("bogus") {
        Err(ParseError::UnknownToken(token)) => assert_eq!(token, "bogus"),
        other => panic!("expected an unknown-token error, got {other:?}"),
    }
}

#[test]
fn parse_is_case_sensitive_and_exact() {
    assert!(EventKind::parse("Incoming").is_err());
    assert!(EventKind::parse("incoming ").is_err());
    assert!(EventKind::parse("").is_err());
}

#[test]
fn wire_tags() {
    assert_eq!(EventKind::IncomingMessage.wire_tag(), "incoming");
    assert_eq!(EventKind::OutgoingMessage.wire_tag(), "outgoing");
    assert_eq!(EventKind::DeliveryReport.wire_tag(), "delivery");
    assert_eq!(
        EventKind::ModemStatusUpdate.wire_tag(),
        "modem_status_update"
    );
    assert_eq!(
        EventKind::GNSSPositionReport.wire_tag(),
        "gnss_position_report"
    );
    assert_eq!(
        EventKind::WebsocketConnectionUpdate.wire_tag(),
        "websocket_connection_update"
    );
}

/// Every server-side kind's wire tag parses back to the kind; the websocket
/// connection kind's wire tag does not, since the parser accepts only the
/// distinct `websocket_connection_upgrade` token.
#[test]
fn wire_tag_parse_round_trip_and_mismatch() {
    let round_trip = [
        EventKind::IncomingMessage,
        EventKind::OutgoingMessage,
        EventKind::DeliveryReport,
        EventKind::ModemStatusUpdate,
        EventKind::GNSSPositionReport,
    ];
    for kind in round_trip {
        assert_eq!(EventKind::parse(kind.wire_tag()), Ok(kind));
    }
    assert!(EventKind::parse(EventKind::WebsocketConnectionUpdate.wire_tag()).is_err());
}

#[test]
fn event_equality_compares_payloads() {
    let report = |reference_id: u8| Event::DeliveryReport {
        message_id: 12,
        report: SmsPartialDeliveryReport {
            phone_number: "+15550100".to_string(),
            reference_id,
            status: SmsDeliveryReportStatus::ReceivedBySme,
        },
    };
    assert_eq!(report(3), report(3));
    assert_ne!(report(3), report(4));
    assert_ne!(
        report(3),
        Event::WebsocketConnectionUpdate { connected: true, reconnect: false }
    );
}

#[test]
fn event_kind_of_event() {
    let report = Event::DeliveryReport {
        message_id: 12,
        report: SmsPartialDeliveryReport {
            phone_number: "+15550100".to_string(),
            reference_id: 3,
            status: SmsDeliveryReportStatus::ReceivedBySme,
        },
    };
    assert_eq!(EventKind::from(&report), EventKind::DeliveryReport);

    let modem = Event::ModemStatusUpdate {
        previous: ModemStatusUpdateState::Startup,
        current: ModemStatusUpdateState::Online,
    };
    assert_eq!(EventKind::from(&modem), EventKind::ModemStatusUpdate);

    let websocket = Event::WebsocketConnectionUpdate { connected: false, reconnect: true };
    assert_eq!(
        EventKind::from(&websocket),
        EventKind::WebsocketConnectionUpdate
    );
}
