//! HTTP interface related request/response types.

use vstd::prelude::*;

verus! {

/// HTTP pagination options allow for lazy reading of large sets of data,
/// for example if thousands of messages have been sent and received from
/// a phone number it would be impractical to request all of them at the
/// same time, instead it can be read in shorter pages using limit+offset.
/// This is applied at the server level when requesting data from database.
#[derive(PartialEq, Eq, Structural, Debug, Clone, Copy)]
pub struct HttpPaginationOptions {
    /// The maximum amount of return values.
    pub limit: Option<u64>,

    /// The offset in index to start getting values from.
    /// Eg, if the limit was 5, and you want to view page 2,
    /// the offset would be 5, then 10, 15, ...
    pub offset: Option<u64>,

    /// Should return values be reversed? This is useful for getting the
    /// first results from a large set without having to know it's size.
    pub reverse: Option<bool>,
}

impl Default for HttpPaginationOptions {
    /// Options that leave every pagination parameter unset.
    fn default() -> (r: Self)
        ensures
            r.limit is None,
            r.offset is None,
            r.reverse is None,
    {
        HttpPaginationOptions { limit: None, offset: None, reverse: None }
    }
}

impl HttpPaginationOptions {
    /// Set the limit/page size.
    #[must_use]
    pub fn with_limit(self, limit: u64) -> (r: Self)
        ensures
            r == (HttpPaginationOptions { limit: Some(limit), ..self }),
    {
        HttpPaginationOptions { limit: Some(limit), offset: self.offset, reverse: self.reverse }
    }

    /// Set request position offset.
    #[must_use]
    pub fn with_offset(self, offset: u64) -> (r: Self)
        ensures
            r == (HttpPaginationOptions { offset: Some(offset), ..self }),
    {
        HttpPaginationOptions { limit: self.limit, offset: Some(offset), reverse: self.reverse }
    }

    /// Set the reverse state for options.
    #[must_use]
    pub fn with_reverse(self, reverse: bool) -> (r: Self)
        ensures
            r == (HttpPaginationOptions { reverse: Some(reverse), ..self }),
    {
        HttpPaginationOptions { limit: self.limit, offset: self.offset, reverse: Some(reverse) }
    }
}

/// Response returned after sending an SMS message.
#[derive(PartialEq, Eq, Structural, Debug, Clone, Copy)]
pub struct HttpSmsSendResponse {
    /// The unique ID assigned to the already sent message.
    pub message_id: i64,

    /// Reference ID for tracking the message.
    pub reference_id: u8,
}

/// The stored-message record that an outgoing message and its send response
/// combine into: the server-assigned identifier and modem reference are
/// attached, and no status or timestamps are set yet.
pub open spec fn spec_message_of_send(
    outgoing: crate::sms::SmsOutgoingMessage,
    response: HttpSmsSendResponse,
) -> crate::sms::SmsMessage {
    crate::sms::SmsMessage {
        message_id: Some(response.message_id),
        phone_number: outgoing.phone_number,
        message_content: outgoing.content,
        message_reference: Some(response.reference_id),
        is_outgoing: true,
        status: None,
        created_at: None,
        completed_at: None,
    }
}

impl From<(crate::sms::SmsOutgoingMessage, HttpSmsSendResponse)> for crate::sms::SmsMessage {
    /// Combine an outgoing message and send response into a stored message.
    fn from(value: (crate::sms::SmsOutgoingMessage, HttpSmsSendResponse)) -> (r: Self) {
        crate::sms::SmsMessage {
            message_id: Some(value.1.message_id),
            phone_number: value.0.phone_number,
            message_content: value.0.content,
            message_reference: Some(value.1.reference_id),
            is_outgoing: true,
            status: None,
            created_at: None,
            completed_at: None,
        }
    }
}

impl vstd::std_specs::convert::FromSpecImpl<(crate::sms::SmsOutgoingMessage, HttpSmsSendResponse)> for crate::sms::SmsMessage {
    open spec fn obeys_from_spec() -> bool {
        true
    }

    open spec fn from_spec(value: (crate::sms::SmsOutgoingMessage, HttpSmsSendResponse)) -> Self {
        spec_message_of_send(value.0, value.1)
    }
}

/// Network registration status of the modem.
#[derive(PartialEq, Eq, Structural, Debug, Clone, Copy)]
pub struct HttpModemNetworkStatusResponse {
    /// Registration status code (0=not registered, 1=registered home, 5=registered roaming).
    pub registration: u8,

    /// Network technology in use (e.g., 2G, 3G, 4G).
    pub technology: u8,
}

/// Signal strength information from the modem.
#[derive(PartialEq, Eq, Structural, Debug, Clone, Copy)]
pub struct HttpModemSignalStrengthResponse {
    /// Received Signal Strength Indicator (0-31, 99=unknown).
    pub rssi: u8,

    /// Bit Error Rate (0-7, 99=unknown).
    pub ber: u8,
}

/// Network operator information from the modem.
#[derive(Debug, Clone)]
pub struct HttpModemNetworkOperatorResponse {
    /// Operator selection status (0=automatic, 1=manual).
    pub status: u8,

    /// Format of the operator name (0=long alphanumeric, 1=short alphanumeric, 2=numeric).
    pub format: u8,

    /// Name or code of the network operator.
    pub operator: String,
}

impl PartialEq for HttpModemNetworkOperatorResponse {
    fn eq(&self, other: &Self) -> (r: bool) {
        self.status == other.status && self.format == other.format && self.operator
            == other.operator
    }
}

impl vstd::std_specs::cmp::PartialEqSpecImpl for HttpModemNetworkOperatorResponse {
    open spec fn obeys_eq_spec() -> bool {
        true
    }

    open spec fn eq_spec(&self, other: &Self) -> bool {
        &&& self.status == other.status
        &&& self.format == other.format
        &&& self.operator@ == other.operator@
    }
}

/// Used in latest-numbers return value, as a number and friendly name.
pub type LatestNumberFriendlyNamePair = (String, Option<String>);

} // verus!
