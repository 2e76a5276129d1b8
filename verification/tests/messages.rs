use sms_gateway_types::gnss::FixStatus;
use sms_gateway_types::gnss::FixStatusParseError;
use sms_gateway_types::http::HttpPaginationOptions;
use sms_gateway_types::http::HttpSmsSendResponse;
use sms_gateway_types::modem::ModemStatusUpdateState;
use sms_gateway_types::sms::SmsDeliveryReportStatus;
use sms_gateway_types::sms::SmsIncomingMessage;
use sms_gateway_types::sms::SmsMessage;
use sms_gateway_types::sms::SmsOutgoingMessage;

fn sample_outgoing() -> SmsOutgoingMessage {
    SmsOutgoingMessage {
        phone_number: "+15550123".to_string(),
        content: "hello".to_string(),
        flash: false,
        validity_period: None,
        timeout: Some(30),
    }
}

#[test]
fn with_message_id_replaces_only_the_id() {
    let message = SmsMessage {
        message_id: None,
        phone_number: "+15550123".to_string(),
        message_content: "hello".to_string(),
        message_reference: Some(9),
        is_outgoing: true,
        status: Some(SmsDeliveryReportStatus::ReceivedBySme),
        created_at: Some(1000),
        completed_at: None,
    };
    let stored = message.with_message_id(Some(42));
    assert_eq!(stored.message_id, Some(42));
    assert_eq!(stored.phone_number, message.phone_number);
    assert_eq!(stored.message_content, message.message_content);
    assert_eq!(stored.message_reference, message.message_reference);
    assert_eq!(stored.is_outgoing, message.is_outgoing);
    assert_eq!(stored.status, Some(SmsDeliveryReportStatus::ReceivedBySme));
    assert_eq!(stored.created_at, message.created_at);
    assert_eq!(stored.completed_at, message.completed_at);

    let cleared = stored.with_message_id(None);
    assert_eq!(cleared.message_id, None);
}

#[test]
fn message_equality_compares_all_fields() {
    let message = SmsMessage {
        message_id: Some(1),
        phone_number: "+15550123".to_string(),
        message_content: "hello".to_string(),
        message_reference: None,
        is_outgoing: true,
        status: None,
        created_at: None,
        completed_at: None,
    };
    assert_eq!(message, message.clone());
    let other = SmsMessage { message_content: "bye".to_string(), ..message.clone() };
    assert_ne!(message, other);
    let relabeled = message.with_message_id(Some(2));
    assert_ne!(message, relabeled);
}

#[test]
fn get_validity_period_defaults_to_24h() {
    let outgoing = sample_outgoing();
    assert_eq!(outgoing.get_validity_period(), 167);
    let explicit = SmsOutgoingMessage { validity_period: Some(11), ..sample_outgoing() };
    assert_eq!(explicit.get_validity_period(), 11);
}

#[test]
fn message_from_outgoing_intent() {
    let outgoing = sample_outgoing();
    let message = SmsMessage::from(&outgoing);
    assert_eq!(message.message_id, None);
    assert_eq!(message.phone_number, "+15550123");
    assert_eq!(message.message_content, "hello");
    assert_eq!(message.message_reference, None);
    assert!(message.is_outgoing);
    assert_eq!(message.status, None);
    assert_eq!(message.created_at, None);
    assert_eq!(message.completed_at, None);
}

#[test]
fn message_from_incoming() {
    let incoming = SmsIncomingMessage {
        phone_number: "BUSINESS".to_string(),
        user_data_header: None,
        content: "offer".to_string(),
    };
    let message = SmsMessage::from(&incoming);
    assert_eq!(message.message_id, None);
    assert_eq!(message.phone_number, "BUSINESS");
    assert_eq!(message.message_content, "offer");
    assert!(!message.is_outgoing);
}

#[test]
fn message_from_send_response_attaches_ids() {
    let response = HttpSmsSendResponse { message_id: 77, reference_id: 5 };
    let message = SmsMessage::from((sample_outgoing(), response));
    assert_eq!(message.message_id, Some(77));
    assert_eq!(message.message_reference, Some(5));
    assert_eq!(message.phone_number, "+15550123");
    assert_eq!(message.message_content, "hello");
    assert!(message.is_outgoing);
    assert_eq!(message.status, None);
}

#[test]
fn pagination_builders_set_one_field_each() {
    let options = HttpPaginationOptions::default();
    assert_eq!(options.limit, None);
    assert_eq!(options.offset, None);
    assert_eq!(options.reverse, None);

    let options = options.with_limit(5);
    assert_eq!(options.limit, Some(5));
    assert_eq!(options.offset, None);

    let options = options.with_offset(10).with_reverse(true);
    assert_eq!(options.limit, Some(5));
    assert_eq!(options.offset, Some(10));
    assert_eq!(options.reverse, Some(true));
}

#[test]
fn modem_state_names() {
    assert_eq!(ModemStatusUpdateState::Startup.as_str(), "Startup");
    assert_eq!(ModemStatusUpdateState::Online.as_str(), "Online");
    assert_eq!(ModemStatusUpdateState::ShuttingDown.as_str(), "ShuttingDown");
    assert_eq!(ModemStatusUpdateState::Offline.as_str(), "Offline");
}

#[test]
fn fix_status_from_tokens() {
    assert_eq!(FixStatus::parse("Location Unknown"), Ok(FixStatus::Unknown));
    assert_eq!(FixStatus::parse("Unknown"), Ok(FixStatus::Unknown));
    assert_eq!(FixStatus::parse("Location Not Fix"), Ok(FixStatus::NotFix));
    assert_eq!(FixStatus::parse("Not Fix"), Ok(FixStatus::NotFix));
    assert_eq!(FixStatus::parse("Location 2D Fix"), Ok(FixStatus::Fix2D));
    assert_eq!(FixStatus::parse("2D Fix"), Ok(FixStatus::Fix2D));
    assert_eq!(FixStatus::parse("Location 3D Fix"), Ok(FixStatus::Fix3D));
    assert_eq!(FixStatus::parse("3D Fix"), Ok(FixStatus::Fix3D));
}

/// Surrounding whitespace is ignored; the trimmed token is what is matched.
#[test]
fn fix_status_parse_trims_whitespace() {
    assert_eq!(FixStatus::parse("  3D Fix  "), Ok(FixStatus::Fix3D));
    assert_eq!(FixStatus::parse("\tLocation 2D Fix\n"), Ok(FixStatus::Fix2D));
}

#[test]
fn fix_status_rejects_unknown_token_naming_it() {
    match FixStatus::parse(" 5D Fix ") {
        Err(FixStatusParseError::UnknownToken(token)) => assert_eq!(token, " 5D Fix "),
        other => panic!("expected an unknown-token error, got {other:?}"),
    }
}

#[test]
fn fix_status_from_bytes() {
    assert_eq!(FixStatus::from_byte(0), FixStatus::NotFix);
    assert_eq!(FixStatus::from_byte(1), FixStatus::Fix2D);
    assert_eq!(FixStatus::from_byte(2), FixStatus::Fix3D);
    assert_eq!(FixStatus::from_byte(3), FixStatus::Unknown);
    assert_eq!(FixStatus::from(200u8), FixStatus::Unknown);
}
