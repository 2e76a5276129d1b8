//! Generic types that apply to both HTTP and Websocket interfaces: stored,
//! outgoing and incoming messages, delivery-report status classification,
//! and the multipart (concatenated message) header decoder.

use vstd::prelude::*;

verus! {

/// TP-Status delivery report codes, as reported by the service center.
///
/// Every raw byte classifies: bytes without a named condition fall to the
/// `Unknown` variant, which retains the original byte so that it can still be
/// classified into a coarse outcome group by its numeric range.
#[derive(PartialEq, Eq, Structural, Debug, Clone, Copy)]
pub enum SmsDeliveryReportStatus {
    // Short message transaction completed (0x00-0x1F)
    /// Short message received by the SME successfully
    ReceivedBySme,
    /// Short message forwarded by the SC to the SME but delivery confirmation unavailable
    ForwardedButUnconfirmed,
    /// Short message replaced by the SC
    ReplacedBySc,

    // Temporary error, SC still trying (0x20-0x3F)
    /// Network congestion preventing delivery, SC will retry
    Congestion,
    /// SME is busy, SC will retry delivery
    SmeBusy,
    /// No response from SME, SC will retry delivery
    NoResponseFromSme,
    /// Service rejected by network, SC will retry delivery
    ServiceRejected,
    /// Quality of service not available, SC will retry delivery
    QualityOfServiceNotAvailable,
    /// Error in SME, SC will retry delivery
    ErrorInSme,

    // Permanent error, SC not making more attempts (0x40-0x5F)
    /// Remote procedure error - permanent failure
    RemoteProcedureError,
    /// Incompatible destination - permanent failure
    IncompatibleDestination,
    /// Connection rejected by SME - permanent failure
    ConnectionRejectedBySme,
    /// Destination not obtainable - permanent failure
    NotObtainable,
    /// Quality of service not available - permanent failure
    QualityOfServiceNotAvailablePermanent,
    /// No interworking available - permanent failure
    NoInterworkingAvailable,
    /// SM validity period expired - permanent failure
    SmValidityPeriodExpired,
    /// SM deleted by originating SME - permanent failure
    SmDeletedByOriginatingSme,
    /// SM deleted by SC administration - permanent failure
    SmDeletedByScAdministration,
    /// SM does not exist in SC - permanent failure
    SmDoesNotExist,

    // Temporary error, SC not making more attempts (0x60-0x7F)
    /// Network congestion, SC has stopped retry attempts
    CongestionNoRetry,
    /// SME busy, SC has stopped retry attempts
    SmeBusyNoRetry,
    /// No response from SME, SC has stopped retry attempts
    NoResponseFromSmeNoRetry,
    /// Service rejected, SC has stopped retry attempts
    ServiceRejectedNoRetry,
    /// Quality of service not available, SC has stopped retry attempts
    QualityOfServiceNotAvailableNoRetry,
    /// Error in SME, SC has stopped retry attempts
    ErrorInSmeNoRetry,

    /// Unknown or reserved status code, carrying the original byte
    Unknown(u8),
}

/// The total classification of a raw TP-Status byte into a status variant.
pub open spec fn spec_classify(value: u8) -> SmsDeliveryReportStatus {
    if value == 0x00 {
        SmsDeliveryReportStatus::ReceivedBySme
    } else if value == 0x01 {
        SmsDeliveryReportStatus::ForwardedButUnconfirmed
    } else if value == 0x02 {
        SmsDeliveryReportStatus::ReplacedBySc
    } else if value == 0x20 {
        SmsDeliveryReportStatus::Congestion
    } else if value == 0x21 {
        SmsDeliveryReportStatus::SmeBusy
    } else if value == 0x22 {
        SmsDeliveryReportStatus::NoResponseFromSme
    } else if value == 0x23 {
        SmsDeliveryReportStatus::ServiceRejected
    } else if value == 0x24 {
        SmsDeliveryReportStatus::QualityOfServiceNotAvailable
    } else if value == 0x25 {
        SmsDeliveryReportStatus::ErrorInSme
    } else if value == 0x40 {
        SmsDeliveryReportStatus::RemoteProcedureError
    } else if value == 0x41 {
        SmsDeliveryReportStatus::IncompatibleDestination
    } else if value == 0x42 {
        SmsDeliveryReportStatus::ConnectionRejectedBySme
    } else if value == 0x43 {
        SmsDeliveryReportStatus::NotObtainable
    } else if value == 0x44 {
        SmsDeliveryReportStatus::QualityOfServiceNotAvailablePermanent
    } else if value == 0x45 {
        SmsDeliveryReportStatus::NoInterworkingAvailable
    } else if value == 0x46 {
        SmsDeliveryReportStatus::SmValidityPeriodExpired
    } else if value == 0x47 {
        SmsDeliveryReportStatus::SmDeletedByOriginatingSme
    } else if value == 0x48 {
        SmsDeliveryReportStatus::SmDeletedByScAdministration
    } else if value == 0x49 {
        SmsDeliveryReportStatus::SmDoesNotExist
    } else if value == 0x60 {
        SmsDeliveryReportStatus::CongestionNoRetry
    } else if value == 0x61 {
        SmsDeliveryReportStatus::SmeBusyNoRetry
    } else if value == 0x62 {
        SmsDeliveryReportStatus::NoResponseFromSmeNoRetry
    } else if value == 0x63 {
        SmsDeliveryReportStatus::ServiceRejectedNoRetry
    } else if value == 0x64 {
        SmsDeliveryReportStatus::QualityOfServiceNotAvailableNoRetry
    } else if value == 0x65 {
        SmsDeliveryReportStatus::ErrorInSmeNoRetry
    } else {
        SmsDeliveryReportStatus::Unknown(value)
    }
}

/// The status indicates successful delivery to the SME.
pub open spec fn spec_is_successful(s: SmsDeliveryReportStatus) -> bool {
    ||| s == SmsDeliveryReportStatus::ReceivedBySme
    ||| s == SmsDeliveryReportStatus::ForwardedButUnconfirmed
    ||| s == SmsDeliveryReportStatus::ReplacedBySc
}

/// The status is a temporary error where the SC is still retrying; unknown
/// bytes in `0x20..=0x3F` count as retrying by range.
pub open spec fn spec_is_temporary_retrying(s: SmsDeliveryReportStatus) -> bool {
    ||| s == SmsDeliveryReportStatus::Congestion
    ||| s == SmsDeliveryReportStatus::SmeBusy
    ||| s == SmsDeliveryReportStatus::NoResponseFromSme
    ||| s == SmsDeliveryReportStatus::ServiceRejected
    ||| s == SmsDeliveryReportStatus::QualityOfServiceNotAvailable
    ||| s == SmsDeliveryReportStatus::ErrorInSme
    ||| (s matches SmsDeliveryReportStatus::Unknown(val) && 0x20 <= val && val <= 0x3F)
}

/// The status is a permanent error (no more delivery attempts); unknown
/// bytes in `0x40..=0x5F` count as permanent by range.
pub open spec fn spec_is_permanent_error(s: SmsDeliveryReportStatus) -> bool {
    ||| s == SmsDeliveryReportStatus::RemoteProcedureError
    ||| s == SmsDeliveryReportStatus::IncompatibleDestination
    ||| s == SmsDeliveryReportStatus::ConnectionRejectedBySme
    ||| s == SmsDeliveryReportStatus::NotObtainable
    ||| s == SmsDeliveryReportStatus::QualityOfServiceNotAvailablePermanent
    ||| s == SmsDeliveryReportStatus::NoInterworkingAvailable
    ||| s == SmsDeliveryReportStatus::SmValidityPeriodExpired
    ||| s == SmsDeliveryReportStatus::SmDeletedByOriginatingSme
    ||| s == SmsDeliveryReportStatus::SmDeletedByScAdministration
    ||| s == SmsDeliveryReportStatus::SmDoesNotExist
    ||| (s matches SmsDeliveryReportStatus::Unknown(val) && 0x40 <= val && val <= 0x5F)
}

/// The status is a temporary error where the SC has stopped retrying; unknown
/// bytes in `0x60..=0x7F` count as no-retry by range.
pub open spec fn spec_is_temporary_no_retry(s: SmsDeliveryReportStatus) -> bool {
    ||| s == SmsDeliveryReportStatus::CongestionNoRetry
    ||| s == SmsDeliveryReportStatus::SmeBusyNoRetry
    ||| s == SmsDeliveryReportStatus::NoResponseFromSmeNoRetry
    ||| s == SmsDeliveryReportStatus::ServiceRejectedNoRetry
    ||| s == SmsDeliveryReportStatus::QualityOfServiceNotAvailableNoRetry
    ||| s == SmsDeliveryReportStatus::ErrorInSmeNoRetry
    ||| (s matches SmsDeliveryReportStatus::Unknown(val) && 0x60 <= val && val <= 0x7F)
}

/// Generalised group for message delivery status.
#[derive(PartialEq, Eq, Structural, Debug, Clone, Copy)]
pub enum SmsDeliveryReportStatusGroup {
    /// Message was sent but delivery is still pending (temporary errors with retry)
    Sent,
    /// Message was successfully received by the destination.
    Received,
    /// Temporary delivery failure where SC has stopped retrying.
    TemporaryFailure,
    /// Permanent delivery failure - message will not be delivered.
    PermanentFailure,
}

/// The coarse outcome group of a status, with the documented priority order:
/// success, then temporary-retrying, then permanent, then temporary-no-retry,
/// and `PermanentFailure` as the conservative default for anything else.
pub open spec fn spec_status_group(s: SmsDeliveryReportStatus) -> SmsDeliveryReportStatusGroup {
    if spec_is_successful(s) {
        SmsDeliveryReportStatusGroup::Received
    } else if spec_is_temporary_retrying(s) {
        SmsDeliveryReportStatusGroup::Sent
    } else if spec_is_permanent_error(s) {
        SmsDeliveryReportStatusGroup::PermanentFailure
    } else if spec_is_temporary_no_retry(s) {
        SmsDeliveryReportStatusGroup::TemporaryFailure
    } else {
        SmsDeliveryReportStatusGroup::PermanentFailure
    }
}

/// The outcome group of a raw byte, stated directly over the numeric range
/// table: `0x00..=0x02` received, `0x20..=0x3F` sent (still retrying),
/// `0x40..=0x5F` permanent failure, `0x60..=0x7F` temporary failure, and
/// everything else (reserved `0x03..=0x1F` and undefined `0x80..=0xFF`)
/// permanent failure by the conservative default.
pub open spec fn spec_group_of_byte(value: u8) -> SmsDeliveryReportStatusGroup {
    if value <= 0x02 {
        SmsDeliveryReportStatusGroup::Received
    } else if 0x20 <= value && value <= 0x3F {
        SmsDeliveryReportStatusGroup::Sent
    } else if 0x40 <= value && value <= 0x5F {
        SmsDeliveryReportStatusGroup::PermanentFailure
    } else if 0x60 <= value && value <= 0x7F {
        SmsDeliveryReportStatusGroup::TemporaryFailure
    } else {
        SmsDeliveryReportStatusGroup::PermanentFailure
    }
}

impl SmsDeliveryReportStatus {
    /// Classify a raw TP-Status byte. Total: every byte yields a variant, and
    /// bytes without a named condition fall to `Unknown` carrying the byte.
    #[must_use]
    pub fn from_byte(value: u8) -> (r: Self)
        ensures
            r == spec_classify(value),
    {
        match value {
            // Transaction completed successfully
            0x00 => Self::ReceivedBySme,
            0x01 => Self::ForwardedButUnconfirmed,
            0x02 => Self::ReplacedBySc,

            // Temporary errors, SC still trying
            0x20 => Self::Congestion,
            0x21 => Self::SmeBusy,
            0x22 => Self::NoResponseFromSme,
            0x23 => Self::ServiceRejected,
            0x24 => Self::QualityOfServiceNotAvailable,
            0x25 => Self::ErrorInSme,

            // Permanent errors
            0x40 => Self::RemoteProcedureError,
            0x41 => Self::IncompatibleDestination,
            0x42 => Self::ConnectionRejectedBySme,
            0x43 => Self::NotObtainable,
            0x44 => Self::QualityOfServiceNotAvailablePermanent,
            0x45 => Self::NoInterworkingAvailable,
            0x46 => Self::SmValidityPeriodExpired,
            0x47 => Self::SmDeletedByOriginatingSme,
            0x48 => Self::SmDeletedByScAdministration,
            0x49 => Self::SmDoesNotExist,

            // Temporary errors, SC not retrying
            0x60 => Self::CongestionNoRetry,
            0x61 => Self::SmeBusyNoRetry,
            0x62 => Self::NoResponseFromSmeNoRetry,
            0x63 => Self::ServiceRejectedNoRetry,
            0x64 => Self::QualityOfServiceNotAvailableNoRetry,
            0x65 => Self::ErrorInSmeNoRetry,

            // All other values (reserved, SC-specific, or unknown)
            _ => Self::Unknown(value),
        }
    }

    /// Returns true if the SMS was successfully delivered to the SME
    #[must_use]
    pub fn is_successful(&self) -> (r: bool)
        ensures
            r == spec_is_successful(*self),
    {
        matches!(
            self,
            Self::ReceivedBySme | Self::ForwardedButUnconfirmed | Self::ReplacedBySc
        )
    }

    /// Returns true if this is a temporary error where SC is still trying
    #[must_use]
    pub fn is_temporary_retrying(&self) -> (r: bool)
        ensures
            r == spec_is_temporary_retrying(*self),
    {
        match self {
            Self::Congestion
            | Self::SmeBusy
            | Self::NoResponseFromSme
            | Self::ServiceRejected
            | Self::QualityOfServiceNotAvailable
            | Self::ErrorInSme => true,
            Self::Unknown(val) => 0x20 <= *val && *val <= 0x3F,
            _ => false,
        }
    }

    /// Returns true if this is a permanent error (no more delivery attempts)
    #[must_use]
    pub fn is_permanent_error(&self) -> (r: bool)
        ensures
            r == spec_is_permanent_error(*self),
    {
        match self {
            Self::RemoteProcedureError
            | Self::IncompatibleDestination
            | Self::ConnectionRejectedBySme
            | Self::NotObtainable
            | Self::QualityOfServiceNotAvailablePermanent
            | Self::NoInterworkingAvailable
            | Self::SmValidityPeriodExpired
            | Self::SmDeletedByOriginatingSme
            | Self::SmDeletedByScAdministration
            | Self::SmDoesNotExist => true,
            Self::Unknown(val) => 0x40 <= *val && *val <= 0x5F,
            _ => false,
        }
    }

    /// Returns true if this is a temporary error where SC has stopped trying
    #[must_use]
    pub fn is_temporary_no_retry(&self) -> (r: bool)
        ensures
            r == spec_is_temporary_no_retry(*self),
    {
        match self {
            Self::CongestionNoRetry
            | Self::SmeBusyNoRetry
            | Self::NoResponseFromSmeNoRetry
            | Self::ServiceRejectedNoRetry
            | Self::QualityOfServiceNotAvailableNoRetry
            | Self::ErrorInSmeNoRetry => true,
            Self::Unknown(val) => 0x60 <= *val && *val <= 0x7F,
            _ => false,
        }
    }

    /// Converts the status to a simplified status group for easier
    /// categorization, with success checked first and permanent failure
    /// preferred over temporary failure for unclassified bytes.
    #[must_use]
    pub fn to_status_group(&self) -> (r: SmsDeliveryReportStatusGroup)
        ensures
            r == spec_status_group(*self),
    {
        if self.is_successful() {
            SmsDeliveryReportStatusGroup::Received
        } else if self.is_temporary_retrying() {
            SmsDeliveryReportStatusGroup::Sent
        } else if self.is_permanent_error() || self.is_temporary_no_retry() {
            // Both permanent errors and temporary errors with no retry are treated as failures
            if self.is_permanent_error() {
                SmsDeliveryReportStatusGroup::PermanentFailure
            } else {
                SmsDeliveryReportStatusGroup::TemporaryFailure
            }
        } else {
            // For unknown status codes, classify based on their range.
            match self {
                Self::Unknown(val) => {
                    if 0x20 <= *val && *val <= 0x3F {
                        SmsDeliveryReportStatusGroup::Sent
                    } else if 0x40 <= *val && *val <= 0x5F {
                        SmsDeliveryReportStatusGroup::PermanentFailure
                    } else if 0x60 <= *val && *val <= 0x7F {
                        SmsDeliveryReportStatusGroup::TemporaryFailure
                    } else {
                        // Default for truly unknown codes
                        SmsDeliveryReportStatusGroup::PermanentFailure
                    }
                },
                _ => SmsDeliveryReportStatusGroup::PermanentFailure,
            }
        }
    }
}

impl From<u8> for SmsDeliveryReportStatus {
    fn from(value: u8) -> (r: Self) {
        Self::from_byte(value)
    }
}

impl vstd::std_specs::convert::FromSpecImpl<u8> for SmsDeliveryReportStatus {
    open spec fn obeys_from_spec() -> bool {
        true
    }

    open spec fn from_spec(value: u8) -> Self {
        spec_classify(value)
    }
}

impl From<SmsDeliveryReportStatus> for SmsDeliveryReportStatusGroup {
    fn from(status: SmsDeliveryReportStatus) -> (r: Self) {
        status.to_status_group()
    }
}

impl vstd::std_specs::convert::FromSpecImpl<SmsDeliveryReportStatus> for SmsDeliveryReportStatusGroup {
    open spec fn obeys_from_spec() -> bool {
        true
    }

    open spec fn from_spec(status: SmsDeliveryReportStatus) -> Self {
        spec_status_group(status)
    }
}

/// How many of the four status predicates hold of a status value.
pub open spec fn spec_predicate_count(s: SmsDeliveryReportStatus) -> int {
    (if spec_is_successful(s) { 1int } else { 0int })
        + (if spec_is_temporary_retrying(s) { 1int } else { 0int })
        + (if spec_is_permanent_error(s) { 1int } else { 0int })
        + (if spec_is_temporary_no_retry(s) { 1int } else { 0int })
}

/// Classification is total and the two descriptions of the coarse group
/// agree: for every byte, reducing the classified variant to a group yields
/// exactly the group given by the numeric range table.
pub proof fn lemma_byte_classification_total(value: u8)
    ensures
        spec_status_group(spec_classify(value)) == spec_group_of_byte(value),
{
}

/// The four status predicates are mutually exclusive, and exactly one of them
/// holds for a classified byte unless the byte lies in the ranges the
/// protocol leaves wholly unnamed (`0x03..=0x1F` and `0x80..=0xFF`), where
/// none holds and the group reducer falls back to the conservative default.
pub proof fn lemma_predicates_partition(value: u8)
    ensures
        spec_predicate_count(spec_classify(value)) <= 1,
        spec_predicate_count(spec_classify(value)) == 1 <==> !((0x03 <= value && value <= 0x1F)
            || 0x80 <= value),
{
}

/// Each adjacent pair of range boundaries in the classification table lands
/// in a different outcome group.
pub proof fn lemma_range_boundary_groups()
    ensures
        spec_group_of_byte(0x1F) != spec_group_of_byte(0x20),
        spec_group_of_byte(0x3F) != spec_group_of_byte(0x40),
        spec_group_of_byte(0x5F) != spec_group_of_byte(0x60),
        spec_group_of_byte(0x7F) != spec_group_of_byte(0x80),
{
}

/// An alternate, coarser four-way split of the raw TP-Status byte, kept
/// distinct from the variant-based group reducer on purpose: its boundaries
/// differ (all of `0x01..=0x1F` counts as sent, and everything from `0x40`
/// up is lumped together as failed), so callers select one scheme or the
/// other explicitly.
#[derive(PartialEq, Eq, Structural, Debug, Clone, Copy)]
pub enum SmsDeliveryReportStatusCategory {
    /// The message reached its destination (`0x00`).
    Received,
    /// The message was sent; no failure has been reported (`0x01..=0x1F`).
    Sent,
    /// A temporary error was reported and the SC is retrying (`0x20..=0x3F`).
    Retrying,
    /// A failure was reported (`0x40` and above).
    Failed,
}

/// The coarse category of a raw byte: a direct range split with boundaries
/// deliberately different from `spec_group_of_byte`.
pub open spec fn spec_status_category(value: u8) -> SmsDeliveryReportStatusCategory {
    if value == 0x00 {
        SmsDeliveryReportStatusCategory::Received
    } else if value <= 0x1F {
        SmsDeliveryReportStatusCategory::Sent
    } else if value <= 0x3F {
        SmsDeliveryReportStatusCategory::Retrying
    } else {
        SmsDeliveryReportStatusCategory::Failed
    }
}

impl SmsDeliveryReportStatusCategory {
    /// Categorize a raw TP-Status byte directly, without going through the
    /// named taxonomy.
    #[must_use]
    pub fn from_byte(value: u8) -> (r: Self)
        ensures
            r == spec_status_category(value),
    {
        if value == 0x00 {
            Self::Received
        } else if value <= 0x1F {
            Self::Sent
        } else if value <= 0x3F {
            Self::Retrying
        } else {
            Self::Failed
        }
    }
}

impl From<u8> for SmsDeliveryReportStatusCategory {
    fn from(value: u8) -> (r: Self) {
        Self::from_byte(value)
    }
}

impl vstd::std_specs::convert::FromSpecImpl<u8> for SmsDeliveryReportStatusCategory {
    open spec fn obeys_from_spec() -> bool {
        true
    }

    open spec fn from_spec(value: u8) -> Self {
        spec_status_category(value)
    }
}

#[verifier::external_type_specification]
#[verifier::external_body]
pub struct ExMessageStatus(sms_pdu::pdu::MessageStatus);

/// Relies on `sms_pdu::pdu::MessageStatus`: casting it to `u8` yields its
/// declared discriminant, and every discriminant the enum declares is one of
/// the named TP-Status code points (`0x00..=0x02`, `0x20..=0x25`,
/// `0x40..=0x49`, `0x60..=0x65`).
#[verifier::external_body]
fn message_status_code(status: sms_pdu::pdu::MessageStatus) -> (r: u8)
    ensures
        r <= 0x02 || (0x20 <= r && r <= 0x25) || (0x40 <= r && r <= 0x49) || (0x60 <= r
            && r <= 0x65),
{
    status as u8
}

impl SmsDeliveryReportStatus {
    /// Classify the delivery status carried by a decoded status-report PDU.
    /// The PDU library only declares the named code points, so the result is
    /// never the `Unknown` fallback.
    #[must_use]
    pub fn from_message_status(status: sms_pdu::pdu::MessageStatus) -> (r: Self)
        ensures
            !(r matches SmsDeliveryReportStatus::Unknown(_)),
            exists|value: u8| r == spec_classify(value),
            spec_predicate_count(r) == 1,
    {
        let code = message_status_code(status);
        let r = Self::from_byte(code);
        proof {
            assert(r == spec_classify(code));
        }
        r
    }
}

/// Represents a stored SMS message from the database.
#[derive(Debug, Clone)]
pub struct SmsMessage {
    /// Unique identifier for the message.
    pub message_id: Option<i64>,

    /// The phone number associated with this message.
    pub phone_number: String,

    /// The actual text content of the message.
    pub message_content: String,

    /// Optional reference number for message tracking.
    /// This is assigned by the modem and is only present for outgoing messages.
    pub message_reference: Option<u8>,

    /// Whether this message was sent (true) or received (false).
    pub is_outgoing: bool,

    /// Service message center delivery status.
    pub status: Option<SmsDeliveryReportStatus>,

    /// Unix timestamp when the message was created.
    pub created_at: Option<u32>,

    /// Optional Unix timestamp when the message was completed/delivered.
    pub completed_at: Option<u32>,
}

impl SmsMessage {
    /// Returns a copy of the message with the `message_id` option replaced
    /// and every other field unchanged.
    #[must_use]
    pub fn with_message_id(&self, id: Option<i64>) -> (r: Self)
        ensures
            r == (SmsMessage { message_id: id, ..*self }),
    {
        Self {
            message_id: id,
            phone_number: self.phone_number.clone(),
            message_content: self.message_content.clone(),
            message_reference: self.message_reference,
            is_outgoing: self.is_outgoing,
            status: self.status,
            created_at: self.created_at,
            completed_at: self.completed_at,
        }
    }
}

impl PartialEq for SmsMessage {
    fn eq(&self, other: &Self) -> (r: bool) {
        let status_eq = match (self.status, other.status) {
            (None, None) => true,
            (Some(a), Some(b)) => a == b,
            _ => false,
        };
        self.message_id == other.message_id && self.phone_number == other.phone_number
            && self.message_content == other.message_content && self.message_reference
            == other.message_reference && self.is_outgoing == other.is_outgoing && status_eq
            && self.created_at == other.created_at && self.completed_at == other.completed_at
    }
}

/// Two stored messages are equal when every field agrees (texts by their
/// characters).
pub open spec fn spec_message_eq(a: SmsMessage, b: SmsMessage) -> bool {
    &&& a.message_id == b.message_id
    &&& a.phone_number@ == b.phone_number@
    &&& a.message_content@ == b.message_content@
    &&& a.message_reference == b.message_reference
    &&& a.is_outgoing == b.is_outgoing
    &&& a.status == b.status
    &&& a.created_at == b.created_at
    &&& a.completed_at == b.completed_at
}

impl vstd::std_specs::cmp::PartialEqSpecImpl for SmsMessage {
    open spec fn obeys_eq_spec() -> bool {
        true
    }

    open spec fn eq_spec(&self, other: &Self) -> bool {
        spec_message_eq(*self, *other)
    }
}

/// A partial outgoing message.
#[derive(Debug)]
pub struct SmsOutgoingMessage {
    /// Target phone number.
    pub phone_number: String,

    /// Message text content.
    pub content: String,

    /// Should the message be sent as a Class 0 flash delivery.
    pub flash: bool,

    /// An optional validity period used by the SMC, default 24hr.
    pub validity_period: Option<u8>,

    /// A timeout to use for sending an SMS message.
    pub timeout: Option<u32>,
}

impl SmsOutgoingMessage {
    /// Get the message sending validity period, either as set or default.
    #[must_use]
    pub fn get_validity_period(&self) -> (r: u8)
        ensures
            r == self.validity_period.unwrap_or(167u8),
    {
        self.validity_period.unwrap_or(167)  // 24hr
    }
}

/// The stored-message record that an outgoing intent maps to: no identifier,
/// no reference, no status or timestamps yet.
pub open spec fn spec_message_of_outgoing(outgoing: SmsOutgoingMessage) -> SmsMessage {
    SmsMessage {
        message_id: None,
        phone_number: outgoing.phone_number,
        message_content: outgoing.content,
        message_reference: None,
        is_outgoing: true,
        status: None,
        created_at: None,
        completed_at: None,
    }
}

impl<'a> From<&'a SmsOutgoingMessage> for SmsMessage {
    fn from(outgoing: &'a SmsOutgoingMessage) -> (r: Self) {
        SmsMessage {
            message_id: None,
            phone_number: outgoing.phone_number.clone(),
            message_content: outgoing.content.clone(),
            message_reference: None,
            is_outgoing: true,
            status: None,
            created_at: None,
            completed_at: None,
        }
    }
}

impl<'a> vstd::std_specs::convert::FromSpecImpl<&'a SmsOutgoingMessage> for SmsMessage {
    open spec fn obeys_from_spec() -> bool {
        true
    }

    open spec fn from_spec(outgoing: &'a SmsOutgoingMessage) -> Self {
        spec_message_of_outgoing(*outgoing)
    }
}

/// An incoming message from the Modem.
#[derive(Debug, Clone)]
pub struct SmsIncomingMessage {
    /// The incoming sender address. This could also be an alphanumeric sender name.
    /// This is usually for registered businesses or carrier messages.
    pub phone_number: String,

    /// The decoded multipart header.
    pub user_data_header: Option<SmsMultipartHeader>,

    /// The raw message content.
    pub content: String,
}

/// The stored-message record that an incoming message maps to.
pub open spec fn spec_message_of_incoming(incoming: SmsIncomingMessage) -> SmsMessage {
    SmsMessage {
        message_id: None,
        phone_number: incoming.phone_number,
        message_content: incoming.content,
        message_reference: None,
        is_outgoing: false,
        status: None,
        created_at: None,
        completed_at: None,
    }
}

impl<'a> From<&'a SmsIncomingMessage> for SmsMessage {
    fn from(incoming: &'a SmsIncomingMessage) -> (r: Self) {
        SmsMessage {
            message_id: None,
            phone_number: incoming.phone_number.clone(),
            message_content: incoming.content.clone(),
            message_reference: None,
            is_outgoing: false,
            status: None,
            created_at: None,
            completed_at: None,
        }
    }
}

impl<'a> vstd::std_specs::convert::FromSpecImpl<&'a SmsIncomingMessage> for SmsMessage {
    open spec fn obeys_from_spec() -> bool {
        true
    }

    open spec fn from_spec(incoming: &'a SmsIncomingMessage) -> Self {
        spec_message_of_incoming(*incoming)
    }
}

/// A partial message delivery report, as it comes from the modem.
#[derive(Debug, Clone)]
pub struct SmsPartialDeliveryReport {
    /// The target phone number that received the message (and has now sent back a delivery report).
    pub phone_number: String,

    /// The modem assigned message reference, this is basically useless outside short-term
    /// tracking; the `message_id` is unique and should always be used instead for identification.
    pub reference_id: u8,

    /// The SMS TP-Status reported by the service center.
    pub status: SmsDeliveryReportStatus,
}

impl PartialEq for SmsPartialDeliveryReport {
    fn eq(&self, other: &Self) -> (r: bool) {
        self.phone_number == other.phone_number && self.reference_id == other.reference_id
            && self.status == other.status
    }
}

/// Two partial delivery reports are equal when every field agrees.
pub open spec fn spec_report_eq(a: SmsPartialDeliveryReport, b: SmsPartialDeliveryReport) -> bool {
    &&& a.phone_number@ == b.phone_number@
    &&& a.reference_id == b.reference_id
    &&& a.status == b.status
}

impl vstd::std_specs::cmp::PartialEqSpecImpl for SmsPartialDeliveryReport {
    open spec fn obeys_eq_spec() -> bool {
        true
    }

    open spec fn eq_spec(&self, other: &Self) -> bool {
        spec_report_eq(*self, *other)
    }
}

/// The error of decoding a multipart header from user-data bytes.
#[derive(PartialEq, Eq, Structural, Debug, Clone, Copy)]
pub enum DecodeError {
    /// The input was not exactly three bytes long.
    InvalidLength,
}

/// The sms message multipart header.
#[derive(PartialEq, Eq, Structural, Debug, Clone, Copy)]
pub struct SmsMultipartHeader {
    /// Modem assigned message send reference (overflows).
    pub message_reference: u8,

    /// The total amount of messages within this multipart.
    pub total: u8,

    /// The current received message index.
    pub index: u8,
}

/// Decoding a user-data byte sequence: succeeds exactly on three bytes, with
/// byte 0 the reference, byte 1 the total part count and byte 2 the part
/// index; no validation between index and total is performed.
pub open spec fn spec_decode_multipart(data: Seq<u8>) -> Result<SmsMultipartHeader, DecodeError> {
    if data.len() == 3 {
        Ok(
            SmsMultipartHeader {
                message_reference: data[0],
                total: data[1],
                index: data[2],
            },
        )
    } else {
        Err(DecodeError::InvalidLength)
    }
}

impl SmsMultipartHeader {
    /// Decode the multipart header from the user-data bytes of a
    /// concatenated message. Fails closed when the input is not exactly
    /// three bytes; performs no further validation of the values.
    pub fn decode(data: &Vec<u8>) -> (r: Result<Self, DecodeError>)
        ensures
            r == spec_decode_multipart(data@),
    {
        if data.len() != 3 {
            return Err(DecodeError::InvalidLength);
        }
        Ok(Self { message_reference: data[0], total: data[1], index: data[2] })
    }
}

impl TryFrom<Vec<u8>> for SmsMultipartHeader {
    type Error = DecodeError;

    fn try_from(data: Vec<u8>) -> (r: Result<Self, DecodeError>) {
        Self::decode(&data)
    }
}

impl vstd::std_specs::convert::TryFromSpecImpl<Vec<u8>> for SmsMultipartHeader {
    open spec fn obeys_try_from_spec() -> bool {
        true
    }

    open spec fn try_from_spec(data: Vec<u8>) -> Result<Self, DecodeError> {
        spec_decode_multipart(data@)
    }
}

} // verus!
