//! Events that are sent via webhook or websocket, the closed registry of
//! event kinds, and the bit-flag mask model used for subscription filtering.

use vstd::prelude::*;
use crate::text::str_eq;

verus! {

/// The Kind of Event.
#[derive(PartialEq, Eq, Structural, Hash, Debug, Clone, Copy)]
pub enum EventKind {
    /// New SMS message received.
    IncomingMessage,
    /// SMS message being sent from API or other connected client.
    OutgoingMessage,
    /// Delivery report update.
    DeliveryReport,
    /// Modem hat connection status update.
    ModemStatusUpdate,
    /// An unsolicited position report from GNSS.
    GNSSPositionReport,
    /// WebSocket connection status update (client-side only).
    WebsocketConnectionUpdate,
}

/// The unique power-of-two bit of an event kind, in declaration order.
pub open spec fn spec_to_bit(kind: EventKind) -> u8 {
    match kind {
        EventKind::IncomingMessage => 0x01,
        EventKind::OutgoingMessage => 0x02,
        EventKind::DeliveryReport => 0x04,
        EventKind::ModemStatusUpdate => 0x08,
        EventKind::GNSSPositionReport => 0x10,
        EventKind::WebsocketConnectionUpdate => 0x20,
    }
}

/// The union of the five server-emittable kinds' bits; the client-local
/// websocket-connection bit is deliberately absent.
pub open spec fn spec_all_server_bits() -> u8 {
    0x1F
}

/// The mask of a sequence of kinds: the bitwise-OR fold of their bits.
pub open spec fn spec_events_mask(events: Seq<EventKind>) -> u8
    decreases events.len(),
{
    if events.len() == 0 {
        0u8
    } else {
        spec_events_mask(events.drop_last()) | spec_to_bit(events.last())
    }
}

/// Whether a mask subscribes to a kind: the kind's bit is set in the mask.
pub open spec fn spec_kind_in_mask(mask: u8, kind: EventKind) -> bool {
    mask & spec_to_bit(kind) != 0
}

impl EventKind {
    /// Total number of `EventKind`'s.
    pub const COUNT: usize = 6;

    /// Make the `EventKind` into its u8 bit representation.
    #[inline]
    #[must_use]
    pub fn to_bit(self) -> (r: u8)
        ensures
            r == spec_to_bit(self),
    {
        match self {
            EventKind::IncomingMessage => 0x01,
            EventKind::OutgoingMessage => 0x02,
            EventKind::DeliveryReport => 0x04,
            EventKind::ModemStatusUpdate => 0x08,
            EventKind::GNSSPositionReport => 0x10,
            EventKind::WebsocketConnectionUpdate => 0x20,
        }
    }

    /// Create a bitmask with all server `EventKind`'s: every kind but the
    /// client-local websocket connection update is subscribed, and the
    /// websocket-connection bit is never set.
    #[inline]
    #[must_use]
    pub fn all_bits() -> (r: u8)
        ensures
            r == spec_all_server_bits(),
            r & spec_to_bit(EventKind::WebsocketConnectionUpdate) == 0,
            forall|kind: EventKind|
                kind != EventKind::WebsocketConnectionUpdate ==> #[trigger] spec_kind_in_mask(
                    r,
                    kind,
                ),
    {
        proof {
            assert((0x01u8 | 0x02 | 0x04 | 0x08 | 0x10) == 0x1Fu8) by (bit_vector);
            assert(0x1Fu8 & 0x20u8 == 0) by (bit_vector);
            assert(0x1Fu8 & 0x01u8 != 0 && 0x1Fu8 & 0x02u8 != 0 && 0x1Fu8 & 0x04u8 != 0
                && 0x1Fu8 & 0x08u8 != 0 && 0x1Fu8 & 0x10u8 != 0) by (bit_vector);
        }
        0x01 | 0x02 | 0x04 | 0x08 | 0x10
    }

    /// Takes a set of `EventKinds` and returns its mask.
    #[inline]
    #[must_use]
    pub fn events_to_mask(events: &[EventKind]) -> (r: u8)
        ensures
            r == spec_events_mask(events@),
    {
        let mut mask: u8 = 0;
        for i in 0..events.len()
            invariant
                mask == spec_events_mask(events@.take(i as int)),
        {
            mask = mask | events[i].to_bit();
            proof {
                assert(events@.take(i + 1).drop_last() =~= events@.take(i as int));
                assert(events@.take(i + 1).last() == events@[i as int]);
            }
        }
        proof {
            assert(events@.take(events@.len() as int) =~= events@);
        }
        mask
    }
}

/// The bit mapping is injective, so a kind round-trips losslessly through
/// its bit: two distinct kinds have disjoint bits, and a kind's bit always
/// overlaps itself.
pub proof fn lemma_to_bit_overlap(a: EventKind, b: EventKind)
    ensures
        (spec_to_bit(a) & spec_to_bit(b) != 0) <==> a == b,
{
    let x = spec_to_bit(a);
    let y = spec_to_bit(b);
    assert(x == 0x01 || x == 0x02 || x == 0x04 || x == 0x08 || x == 0x10 || x == 0x20);
    assert(y == 0x01 || y == 0x02 || y == 0x04 || y == 0x08 || y == 0x10 || y == 0x20);
    assert((x == 0x01 || x == 0x02 || x == 0x04 || x == 0x08 || x == 0x10 || x == 0x20) && (y
        == 0x01 || y == 0x02 || y == 0x04 || y == 0x08 || y == 0x10 || y == 0x20) ==> ((x & y != 0)
        <==> x == y)) by (bit_vector);
}

/// A fold of kind bits never sets a bit above the six kind positions.
proof fn lemma_events_mask_bounded(events: Seq<EventKind>)
    ensures
        spec_events_mask(events) < 0x40,
    decreases events.len(),
{
    if events.len() == 0 {
    } else {
        lemma_events_mask_bounded(events.drop_last());
        let m = spec_events_mask(events.drop_last());
        let b = spec_to_bit(events.last());
        assert(b == 0x01 || b == 0x02 || b == 0x04 || b == 0x08 || b == 0x10 || b == 0x20);
        assert(m < 0x40 && (b == 0x01 || b == 0x02 || b == 0x04 || b == 0x08 || b == 0x10 || b
            == 0x20) ==> (m | b) < 0x40) by (bit_vector);
    }
}

/// A kind's bit is set in the mask of a sequence exactly when the sequence
/// contains that kind.
pub proof fn lemma_events_mask_membership(events: Seq<EventKind>, kind: EventKind)
    ensures
        spec_kind_in_mask(spec_events_mask(events), kind) <==> events.contains(kind),
    decreases events.len(),
{
    if events.len() == 0 {
        assert(forall|y: u8| 0u8 & y == 0) by (bit_vector);
    } else {
        let rest = events.drop_last();
        lemma_events_mask_membership(rest, kind);
        lemma_to_bit_overlap(events.last(), kind);
        let m = spec_events_mask(rest);
        let x = spec_to_bit(events.last());
        let y = spec_to_bit(kind);
        assert(forall|m: u8, x: u8, y: u8| ((m | x) & y != 0) <==> ((m & y != 0) || (x & y != 0)))
            by (bit_vector);
        assert(events.contains(kind) <==> (rest.contains(kind) || events.last() == kind)) by {
            if events.contains(kind) {
                let i = choose|i: int| 0 <= i < events.len() && events[i] == kind;
                if i < events.len() - 1 {
                    assert(rest[i] == kind);
                    assert(rest.contains(kind));
                }
            }
            if rest.contains(kind) {
                let i = choose|i: int| 0 <= i < rest.len() && rest[i] == kind;
                assert(events[i] == kind);
            }
            if events.last() == kind {
                assert(events[events.len() - 1] == kind);
            }
        }
    }
}

/// Folding kinds into a mask is idempotent and order-insensitive: two
/// sequences with the same set of kinds (duplicates and order aside) fold to
/// the same mask.
pub proof fn lemma_events_mask_depends_on_set(s1: Seq<EventKind>, s2: Seq<EventKind>)
    requires
        s1.to_set() == s2.to_set(),
    ensures
        spec_events_mask(s1) == spec_events_mask(s2),
{
    broadcast use vstd::set::group_set_axioms;

    let m1 = spec_events_mask(s1);
    let m2 = spec_events_mask(s2);
    lemma_events_mask_bounded(s1);
    lemma_events_mask_bounded(s2);
    assert forall|kind: EventKind| #[trigger]
        spec_kind_in_mask(m1, kind) <==> spec_kind_in_mask(m2, kind) by {
        lemma_events_mask_membership(s1, kind);
        lemma_events_mask_membership(s2, kind);
        assert(s1.to_set().contains(kind) <==> s1.contains(kind));
        assert(s2.to_set().contains(kind) <==> s2.contains(kind));
    }
    assert(spec_kind_in_mask(m1, EventKind::IncomingMessage) <==> spec_kind_in_mask(
        m2,
        EventKind::IncomingMessage,
    ));
    assert(spec_kind_in_mask(m1, EventKind::OutgoingMessage) <==> spec_kind_in_mask(
        m2,
        EventKind::OutgoingMessage,
    ));
    assert(spec_kind_in_mask(m1, EventKind::DeliveryReport) <==> spec_kind_in_mask(
        m2,
        EventKind::DeliveryReport,
    ));
    assert(spec_kind_in_mask(m1, EventKind::ModemStatusUpdate) <==> spec_kind_in_mask(
        m2,
        EventKind::ModemStatusUpdate,
    ));
    assert(spec_kind_in_mask(m1, EventKind::GNSSPositionReport) <==> spec_kind_in_mask(
        m2,
        EventKind::GNSSPositionReport,
    ));
    assert(spec_kind_in_mask(m1, EventKind::WebsocketConnectionUpdate) <==> spec_kind_in_mask(
        m2,
        EventKind::WebsocketConnectionUpdate,
    ));
    assert(m1 == m2) by (bit_vector)
        requires
            m1 < 0x40,
            m2 < 0x40,
            (m1 & 0x01 != 0) <==> (m2 & 0x01 != 0),
            (m1 & 0x02 != 0) <==> (m2 & 0x02 != 0),
            (m1 & 0x04 != 0) <==> (m2 & 0x04 != 0),
            (m1 & 0x08 != 0) <==> (m2 & 0x08 != 0),
            (m1 & 0x10 != 0) <==> (m2 & 0x10 != 0),
            (m1 & 0x20 != 0) <==> (m2 & 0x20 != 0),
    ;
}

/// Repeating a kind adds nothing to a mask: for any kinds, folding them
/// with one duplicated gives the same mask as folding them once each.
pub proof fn lemma_events_mask_duplicate_idempotent(a: EventKind, b: EventKind)
    ensures
        spec_events_mask(seq![a, a, b]) == spec_events_mask(seq![a, b]),
{
    broadcast use vstd::set::group_set_axioms;

    let s1 = seq![a, a, b];
    let s2 = seq![a, b];
    assert(s1[0] == a && s1[1] == a && s1[2] == b);
    assert(s2[0] == a && s2[1] == b);
    assert forall|kind: EventKind| s1.contains(kind) <==> s2.contains(kind) by {
        if s1.contains(kind) {
            let i = choose|i: int| 0 <= i < s1.len() && s1[i] == kind;
            if i == 2 {
                assert(s2[1] == kind);
            } else {
                assert(s2[0] == kind);
            }
            assert(s2.contains(kind));
        }
        if s2.contains(kind) {
            let i = choose|i: int| 0 <= i < s2.len() && s2[i] == kind;
            if i == 1 {
                assert(s1[2] == kind);
            } else {
                assert(s1[0] == kind);
            }
            assert(s1.contains(kind));
        }
    }
    assert(s1.to_set() =~= s2.to_set());
    lemma_events_mask_depends_on_set(s1, s2);
}

/// The error of parsing an event kind from text.
#[derive(PartialEq, Eq, Debug, Clone)]
pub enum ParseError {
    /// The text matches no known event-kind token; carries the offending text.
    UnknownToken(String),
}

/// The event kind that a configuration token denotes, if any. Matching is
/// case-sensitive and exact. Note that the accepted websocket-connection
/// token is `websocket_connection_upgrade`, which differs from that kind's
/// wire tag (see `lemma_wire_tag_vs_parse_token`).
pub open spec fn spec_token_kind(token: Seq<char>) -> Option<EventKind> {
    if token == "incoming"@ {
        Some(EventKind::IncomingMessage)
    } else if token == "outgoing"@ {
        Some(EventKind::OutgoingMessage)
    } else if token == "delivery"@ {
        Some(EventKind::DeliveryReport)
    } else if token == "modem_status_update"@ {
        Some(EventKind::ModemStatusUpdate)
    } else if token == "websocket_connection_upgrade"@ {
        Some(EventKind::WebsocketConnectionUpdate)
    } else if token == "gnss_position_report"@ {
        Some(EventKind::GNSSPositionReport)
    } else {
        None
    }
}

/// The tag under which an event of a kind is serialized for transport, in
/// the `{type, data}` envelope.
pub open spec fn spec_wire_tag(kind: EventKind) -> Seq<char> {
    match kind {
        EventKind::IncomingMessage => "incoming"@,
        EventKind::OutgoingMessage => "outgoing"@,
        EventKind::DeliveryReport => "delivery"@,
        EventKind::ModemStatusUpdate => "modem_status_update"@,
        EventKind::GNSSPositionReport => "gnss_position_report"@,
        EventKind::WebsocketConnectionUpdate => "websocket_connection_update"@,
    }
}

impl EventKind {
    /// Convert a configuration token into an `EventKind`. Matching is
    /// case-sensitive and exact; an unrecognized token fails with an error
    /// carrying the offending text.
    pub fn parse(value: &str) -> (r: Result<EventKind, ParseError>)
        ensures
            match spec_token_kind(value@) {
                Some(kind) => r == Ok::<EventKind, ParseError>(kind),
                None => r matches Err(ParseError::UnknownToken(token)) && token@ == value@,
            },
    {
        if str_eq(value, "incoming") {
            Ok(EventKind::IncomingMessage)
        } else if str_eq(value, "outgoing") {
            Ok(EventKind::OutgoingMessage)
        } else if str_eq(value, "delivery") {
            Ok(EventKind::DeliveryReport)
        } else if str_eq(value, "modem_status_update") {
            Ok(EventKind::ModemStatusUpdate)
        } else if str_eq(value, "websocket_connection_upgrade") {
            Ok(EventKind::WebsocketConnectionUpdate)
        } else if str_eq(value, "gnss_position_report") {
            Ok(EventKind::GNSSPositionReport)
        } else {
            Err(ParseError::UnknownToken(value.to_owned()))
        }
    }

    /// The tag under which an event of this kind travels on the wire.
    #[must_use]
    pub fn wire_tag(&self) -> (r: &'static str)
        ensures
            r@ == spec_wire_tag(*self),
    {
        match self {
            EventKind::IncomingMessage => "incoming",
            EventKind::OutgoingMessage => "outgoing",
            EventKind::DeliveryReport => "delivery",
            EventKind::ModemStatusUpdate => "modem_status_update",
            EventKind::GNSSPositionReport => "gnss_position_report",
            EventKind::WebsocketConnectionUpdate => "websocket_connection_update",
        }
    }
}

/// The parser's token table and the wire tags agree for every server-side
/// kind, but not for the websocket connection update: its wire tag is
/// `websocket_connection_update` while the parser accepts only
/// `websocket_connection_upgrade`, so that kind's wire tag does not parse.
pub proof fn lemma_wire_tag_vs_parse_token()
    ensures
        forall|kind: EventKind|
            kind != EventKind::WebsocketConnectionUpdate ==> #[trigger] spec_token_kind(
                spec_wire_tag(kind),
            ) == Some(kind),
        spec_token_kind(spec_wire_tag(EventKind::WebsocketConnectionUpdate)) is None,
{
    reveal_strlit("incoming");
    reveal_strlit("outgoing");
    reveal_strlit("delivery");
    reveal_strlit("modem_status_update");
    reveal_strlit("websocket_connection_upgrade");
    reveal_strlit("gnss_position_report");
    reveal_strlit("websocket_connection_update");
    assert forall|kind: EventKind|
        kind != EventKind::WebsocketConnectionUpdate implies #[trigger] spec_token_kind(
        spec_wire_tag(kind),
    ) == Some(kind) by {
        match kind {
            EventKind::IncomingMessage => {
                assert(spec_token_kind("incoming"@) == Some(EventKind::IncomingMessage));
            },
            EventKind::OutgoingMessage => {
                assert("outgoing"@[0] != "incoming"@[0]);
                assert(spec_token_kind("outgoing"@) == Some(EventKind::OutgoingMessage));
            },
            EventKind::DeliveryReport => {
                assert("delivery"@[0] != "incoming"@[0]);
                assert("delivery"@[0] != "outgoing"@[0]);
                assert(spec_token_kind("delivery"@) == Some(EventKind::DeliveryReport));
            },
            EventKind::ModemStatusUpdate => {
                assert("modem_status_update"@.len() != "incoming"@.len());
                assert(spec_token_kind("modem_status_update"@) == Some(
                    EventKind::ModemStatusUpdate,
                ));
            },
            EventKind::GNSSPositionReport => {
                assert("gnss_position_report"@[0] != "modem_status_update"@[0]);
                assert("gnss_position_report"@.len() != "websocket_connection_upgrade"@.len());
                assert(spec_token_kind("gnss_position_report"@) == Some(
                    EventKind::GNSSPositionReport,
                ));
            },
            EventKind::WebsocketConnectionUpdate => {},
        }
    }
    assert("websocket_connection_update"@.len() != "websocket_connection_upgrade"@.len());
    assert("websocket_connection_update"@.len() != "modem_status_update"@.len());
    assert("websocket_connection_update"@.len() != "gnss_position_report"@.len());
    assert(spec_token_kind("websocket_connection_update"@) is None);
}

/// Event types that can be sent by the server.
#[derive(Debug, Clone)]
pub enum Event {
    /// New SMS message received.
    IncomingMessage(crate::sms::SmsMessage),
    /// SMS message being sent from API or other connected client.
    OutgoingMessage(crate::sms::SmsMessage),
    /// Delivery report update.
    DeliveryReport {
        /// The target `message_id` this delivery report applies to.
        /// This is determined from the `message_reference` and sender.
        message_id: i64,
        /// The received delivery report.
        report: crate::sms::SmsPartialDeliveryReport,
    },
    /// Modem hat connection status update.
    /// This can be either: Startup, Online, `ShuttingDown`, Offline
    ModemStatusUpdate {
        /// Previous state from last update.
        previous: crate::modem::ModemStatusUpdateState,
        /// Current state after update.
        current: crate::modem::ModemStatusUpdateState,
    },
    /// WebSocket connection status update (client-side only).
    /// This message is generated locally when there is a connection or disconnection.
    WebsocketConnectionUpdate {
        /// Connection status: true = connected, false = disconnected
        connected: bool,
        /// If connection is false, will the client attempt to automatically reconnect?
        reconnect: bool,
    },
}

impl PartialEq for Event {
    fn eq(&self, other: &Self) -> (r: bool) {
        match (self, other) {
            (Event::IncomingMessage(a), Event::IncomingMessage(b)) => a == b,
            (Event::OutgoingMessage(a), Event::OutgoingMessage(b)) => a == b,
            (
                Event::DeliveryReport { message_id: a_id, report: a_report },
                Event::DeliveryReport { message_id: b_id, report: b_report },
            ) => a_id == b_id && a_report == b_report,
            (
                Event::ModemStatusUpdate { previous: a_previous, current: a_current },
                Event::ModemStatusUpdate { previous: b_previous, current: b_current },
            ) => a_previous == b_previous && a_current == b_current,
            (
                Event::WebsocketConnectionUpdate { connected: a_connected, reconnect: a_reconnect },
                Event::WebsocketConnectionUpdate { connected: b_connected, reconnect: b_reconnect },
            ) => a_connected == b_connected && a_reconnect == b_reconnect,
            _ => false,
        }
    }
}

impl vstd::std_specs::cmp::PartialEqSpecImpl for Event {
    open spec fn obeys_eq_spec() -> bool {
        true
    }

    open spec fn eq_spec(&self, other: &Self) -> bool {
        match (self, other) {
            (Event::IncomingMessage(a), Event::IncomingMessage(b)) => crate::sms::spec_message_eq(
                *a,
                *b,
            ),
            (Event::OutgoingMessage(a), Event::OutgoingMessage(b)) => crate::sms::spec_message_eq(
                *a,
                *b,
            ),
            (
                Event::DeliveryReport { message_id: a_id, report: a_report },
                Event::DeliveryReport { message_id: b_id, report: b_report },
            ) => a_id == b_id && crate::sms::spec_report_eq(*a_report, *b_report),
            (
                Event::ModemStatusUpdate { previous: a_previous, current: a_current },
                Event::ModemStatusUpdate { previous: b_previous, current: b_current },
            ) => a_previous == b_previous && a_current == b_current,
            (
                Event::WebsocketConnectionUpdate { connected: a_connected, reconnect: a_reconnect },
                Event::WebsocketConnectionUpdate { connected: b_connected, reconnect: b_reconnect },
            ) => a_connected == b_connected && a_reconnect == b_reconnect,
            _ => false,
        }
    }
}

/// The kind that tags an event.
pub open spec fn spec_event_kind(event: Event) -> EventKind {
    match event {
        Event::IncomingMessage(_) => EventKind::IncomingMessage,
        Event::OutgoingMessage(_) => EventKind::OutgoingMessage,
        Event::DeliveryReport { .. } => EventKind::DeliveryReport,
        Event::ModemStatusUpdate { .. } => EventKind::ModemStatusUpdate,
        Event::WebsocketConnectionUpdate { .. } => EventKind::WebsocketConnectionUpdate,
    }
}

impl<'a> From<&'a Event> for EventKind {
    fn from(value: &'a Event) -> (r: Self) {
        match value {
            Event::IncomingMessage(_) => EventKind::IncomingMessage,
            Event::OutgoingMessage(_) => EventKind::OutgoingMessage,
            Event::DeliveryReport { .. } => EventKind::DeliveryReport,
            Event::ModemStatusUpdate { .. } => EventKind::ModemStatusUpdate,
            Event::WebsocketConnectionUpdate { .. } => EventKind::WebsocketConnectionUpdate,
        }
    }
}

impl<'a> vstd::std_specs::convert::FromSpecImpl<&'a Event> for EventKind {
    open spec fn obeys_from_spec() -> bool {
        true
    }

    open spec fn from_spec(value: &'a Event) -> Self {
        spec_event_kind(*value)
    }
}

} // verus!
