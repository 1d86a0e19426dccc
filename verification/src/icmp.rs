//! Wire format of ICMP messages for both protocol families: the typed model of
//! a message, the decoders from raw bytes, and the echo-request encoders.

use vstd::prelude::*;
use vstd::slice::{slice_subrange, slice_to_vec};
use vstd::std_specs::convert::TryFromSpecImpl;

pub use crate::checksum::populate_checksum;
use crate::checksum::{checksum_of, with_checksum};

verus! {

/// A decoded message of either protocol family.
#[derive(Debug, Clone, PartialEq, Eq)]
pub enum ICMPMessage {
    ICMPv4(ICMPv4Message),
    ICMPv6(ICMPv6Message),
}

/// A decoded ICMPv4 message.
#[derive(Debug, Clone, PartialEq, Eq)]
pub struct ICMPv4Message {
    /// Type of control message, including the code and the fields of its header.
    pub icmpv4_type: ICMPv4Type,
    /// Checksum as transmitted (the big-endian value of bytes 2 and 3).
    pub icmpv4_checksum: u16,
    /// Everything from offset 8 onward.
    pub icmpv4_data: Vec<u8>,
}

/// The kind of an ICMPv4 message, one variant per supported type number.
#[derive(Debug, Clone, Copy, PartialEq, Eq, Structural)]
#[allow(inconsistent_fields)]
pub enum ICMPv4Type {
    /// Type 0.
    EchoReply { identifier: u16, sequence_num: u16 },
    /// Type 3.
    DestinationUnreachable { code: DestinationUnreachableCode, length: u8, next_hop_mtu: u16 },
    /// Type 4.
    SourceQuench {},
    /// Type 5.
    RedirectMessage { code: RedirectMsgCode, address: u32 },
    /// Type 8.
    EchoRequest { identifier: u16, sequence_num: u16 },
    /// Type 9.
    RouterAdvertisement {},
    /// Type 10.
    RouterSolicitation {},
    /// Type 11.
    TimeExceeded { code: TimeExceededCode },
    /// Type 12.
    BadIPHeader { code: BadIPHeaderCode },
    /// Type 13.
    Timestamp {
        identifier: u16,
        sequence_num: u16,
        ts_originate: u32,
        ts_receive: u32,
        ts_transmit: u32,
    },
    /// Type 14.
    TimestampReply {
        identifier: u16,
        sequence_num: u16,
        ts_originate: u32,
        ts_receive: u32,
        ts_transmit: u32,
    },
}

/// Codes of a destination-unreachable message, in the order of their numbers 0 to 15.
#[derive(Debug, Clone, Copy, PartialEq, Eq, Structural)]
pub enum DestinationUnreachableCode {
    NetworkUnreachable,
    HostUnreachable,
    ProtocolUnreachable,
    PortUnreachable,
    FragmentationRequired,
    SourceRouteFailed,
    NetworkUnknown,
    DestHostUnknown,
    SourceHostIsolated,
    NetAdministrativelyProhibited,
    HostAdministrativelyProhibited,
    NetworkUnreachableForToS,
    HostUnreachableForToS,
    CommAdministrativelyProhibited,
    HostPrecedenceViolation,
    PrecedenceCuttoffInEffect,
}

/// Codes of a redirect message, in the order of their numbers 0 to 3.
#[derive(Debug, Clone, Copy, PartialEq, Eq, Structural)]
pub enum RedirectMsgCode {
    Network,
    Host,
    ToSAndNetwork,
    ToSAndHost,
}

/// Codes of a time-exceeded message (both families), numbers 0 and 1.
#[derive(Debug, Clone, Copy, PartialEq, Eq, Structural)]
pub enum TimeExceededCode {
    ExpiredInTransit,
    FragmentReassemblyTimeExceeded,
}

/// Codes of a bad-IP-header message, numbers 0 to 2.
#[derive(Debug, Clone, Copy, PartialEq, Eq, Structural)]
pub enum BadIPHeaderCode {
    PointerIndicatesError,
    MissingRequiredOption,
    BadLength,
}

/// Why a buffer could not be decoded.
#[derive(Debug, Clone, Copy, PartialEq, Eq, Structural)]
pub enum IntoICMPv4MessageError {
    /// The type byte names no supported message type.
    UnknownType,
    /// The code byte is out of range for the message type.
    UnknownCode,
    /// The buffer ends before the last byte that the message type requires.
    NotLongEnough,
    /// Reserved; no decoder returns it.
    OtherError,
}

/// A decoded ICMPv6 message.
#[derive(Debug, Clone, PartialEq, Eq)]
pub struct ICMPv6Message {
    /// Type of control message, including the code and the fields of its header.
    pub icmpv6_type: ICMPv6Type,
    /// Checksum as transmitted (the big-endian value of bytes 2 and 3).
    pub checksum: u16,
    /// Everything from offset 8 onward.
    pub body: Vec<u8>,
}

/// The kind of an ICMPv6 message, one variant per supported type number.
#[derive(Debug, Clone, Copy, PartialEq, Eq, Structural)]
#[allow(inconsistent_fields)]
pub enum ICMPv6Type {
    /// Type 1.
    DestinationUnreachable { code: DestinationUnreachableV6Code },
    /// Type 2.
    PacketTooBig { mtu: u32 },
    /// Type 3.
    TimeExceeded { code: TimeExceededCode },
    /// Type 4.
    ParameterProblem { code: ParamProblemCode, ptr: u32 },
    /// Type 128.
    EchoRequest { identifier: u16, sequence_num: u16 },
    /// Type 129.
    EchoReply { identifier: u16, sequence_num: u16 },
}

/// Codes of an ICMPv6 destination-unreachable message, numbers 0 to 7.
#[derive(Debug, Clone, Copy, PartialEq, Eq, Structural)]
pub enum DestinationUnreachableV6Code {
    NoRouteToDestination,
    CommAdministrativelyProhibited,
    BeyondScopeOfSourceAddress,
    AddressUnreachable,
    PortUnreachable,
    SourceAddressFailedIngressEgressPolicy,
    RejectRouteToDestination,
    ErrorInSourceRoutingHeader,
}

/// Codes of an ICMPv6 parameter-problem message, numbers 0 to 2.
#[derive(Debug, Clone, Copy, PartialEq, Eq, Structural)]
pub enum ParamProblemCode {
    ErroneousHeaderField,
    UnrecognisedNextHeaderType,
    UnrecognisedIPv6Option,
}

/// The mathematical content of an [`ICMPv4Message`].
#[verifier::ext_equal]
pub struct ICMPv4MessageView {
    pub icmpv4_type: ICMPv4Type,
    pub icmpv4_checksum: u16,
    pub icmpv4_data: Seq<u8>,
}

impl View for ICMPv4Message {
    type V = ICMPv4MessageView;

    open spec fn view(&self) -> ICMPv4MessageView {
        ICMPv4MessageView {
            icmpv4_type: self.icmpv4_type,
            icmpv4_checksum: self.icmpv4_checksum,
            icmpv4_data: self.icmpv4_data@,
        }
    }
}

/// The mathematical content of an [`ICMPv6Message`].
#[verifier::ext_equal]
pub struct ICMPv6MessageView {
    pub icmpv6_type: ICMPv6Type,
    pub checksum: u16,
    pub body: Seq<u8>,
}

impl View for ICMPv6Message {
    type V = ICMPv6MessageView;

    open spec fn view(&self) -> ICMPv6MessageView {
        ICMPv6MessageView {
            icmpv6_type: self.icmpv6_type,
            checksum: self.checksum,
            body: self.body@,
        }
    }
}

impl ICMPMessage {
    /// Everything from offset 8 onward of the message, whatever its family.
    pub open spec fn spec_data(self) -> Seq<u8> {
        match self {
            ICMPMessage::ICMPv4(message) => message.icmpv4_data@,
            ICMPMessage::ICMPv6(message) => message.body@,
        }
    }

    /// Everything from offset 8 onward of the message, whatever its family.
    pub fn data(&self) -> (data: &[u8])
        ensures
            data@ == self.spec_data(),
    {
        match self {
            ICMPMessage::ICMPv4(message) => message.icmpv4_data.as_slice(),
            ICMPMessage::ICMPv6(message) => message.body.as_slice(),
        }
    }
}

impl IntoICMPv4MessageError {
    /// The reason in words.
    pub open spec fn spec_description(self) -> Seq<char> {
        match self {
            IntoICMPv4MessageError::UnknownType => "unknown type"@,
            IntoICMPv4MessageError::UnknownCode => "unknown code"@,
            IntoICMPv4MessageError::NotLongEnough => "message not long enough"@,
            IntoICMPv4MessageError::OtherError => "other error"@,
        }
    }

    /// The reason in words, for a diagnostic.
    pub fn description(&self) -> (text: &'static str)
        ensures
            text@ == self.spec_description(),
    {
        match self {
            IntoICMPv4MessageError::UnknownType => "unknown type",
            IntoICMPv4MessageError::UnknownCode => "unknown code",
            IntoICMPv4MessageError::NotLongEnough => "message not long enough",
            IntoICMPv4MessageError::OtherError => "other error",
        }
    }
}

/// Length of the fixed part that every supported message has.
pub const HEADER_LEN: usize = 8;

/// Length that an ICMPv4 timestamp message needs for its three timestamps.
pub const TIMESTAMP_LEN: usize = 20;

// ---------------------------------------------------------------------------
// Big-endian fields
// ---------------------------------------------------------------------------

/// Big-endian value of the two bytes of `bytes` at `start` and `start + 1`.
pub open spec fn spec_be_u16(bytes: Seq<u8>, start: int) -> u16
    recommends
        0 <= start,
        start + 2 <= bytes.len(),
{
    (bytes[start] as int * 0x100 + bytes[start + 1] as int) as u16
}

/// Big-endian value of the four bytes of `bytes` from `start` to `start + 3`.
pub open spec fn spec_be_u32(bytes: Seq<u8>, start: int) -> u32
    recommends
        0 <= start,
        start + 4 <= bytes.len(),
{
    (bytes[start] as int * 0x100_0000 + bytes[start + 1] as int * 0x1_0000 + bytes[start + 2] as int
        * 0x100 + bytes[start + 3] as int) as u32
}

/// The two bytes of `value` in network byte order.
pub open spec fn spec_u16_be_bytes(value: u16) -> Seq<u8> {
    seq![(value / 0x100) as u8, (value % 0x100) as u8]
}

/// Reads a big-endian `u16` from two bytes.
pub fn be_u16(bytes: &[u8], start: usize) -> (value: u16)
    requires
        start + 2 <= bytes@.len(),
    ensures
        value == spec_be_u16(bytes@, start as int),
{
    let hi: u16 = bytes[start] as u16;
    let lo: u16 = bytes[start + 1] as u16;
    hi * 0x100 + lo
}

/// Reads a big-endian `u32` from four bytes.
pub fn be_u32(bytes: &[u8], start: usize) -> (value: u32)
    requires
        start + 4 <= bytes@.len(),
    ensures
        value == spec_be_u32(bytes@, start as int),
{
    let b0: u32 = bytes[start] as u32;
    let b1: u32 = bytes[start + 1] as u32;
    let b2: u32 = bytes[start + 2] as u32;
    let b3: u32 = bytes[start + 3] as u32;
    b0 * 0x100_0000 + b1 * 0x1_0000 + b2 * 0x100 + b3
}

// ---------------------------------------------------------------------------
// Code bytes
// ---------------------------------------------------------------------------

impl DestinationUnreachableCode {
    /// The code that the code byte `value` stands for, if any.
    pub open spec fn from_wire(value: u8) -> Option<Self> {
        match value {
            0 => Some(DestinationUnreachableCode::NetworkUnreachable),
            1 => Some(DestinationUnreachableCode::HostUnreachable),
            2 => Some(DestinationUnreachableCode::ProtocolUnreachable),
            3 => Some(DestinationUnreachableCode::PortUnreachable),
            4 => Some(DestinationUnreachableCode::FragmentationRequired),
            5 => Some(DestinationUnreachableCode::SourceRouteFailed),
            6 => Some(DestinationUnreachableCode::NetworkUnknown),
            7 => Some(DestinationUnreachableCode::DestHostUnknown),
            8 => Some(DestinationUnreachableCode::SourceHostIsolated),
            9 => Some(DestinationUnreachableCode::NetAdministrativelyProhibited),
            10 => Some(DestinationUnreachableCode::HostAdministrativelyProhibited),
            11 => Some(DestinationUnreachableCode::NetworkUnreachableForToS),
            12 => Some(DestinationUnreachableCode::HostUnreachableForToS),
            13 => Some(DestinationUnreachableCode::CommAdministrativelyProhibited),
            14 => Some(DestinationUnreachableCode::HostPrecedenceViolation),
            15 => Some(DestinationUnreachableCode::PrecedenceCuttoffInEffect),
            _ => None,
        }
    }
}

impl RedirectMsgCode {
    /// The code that the code byte `value` stands for, if any.
    pub open spec fn from_wire(value: u8) -> Option<Self> {
        match value {
            0 => Some(RedirectMsgCode::Network),
            1 => Some(RedirectMsgCode::Host),
            2 => Some(RedirectMsgCode::ToSAndNetwork),
            3 => Some(RedirectMsgCode::ToSAndHost),
            _ => None,
        }
    }
}

impl TimeExceededCode {
    /// The code that the code byte `value` stands for, if any.
    pub open spec fn from_wire(value: u8) -> Option<Self> {
        match value {
            0 => Some(TimeExceededCode::ExpiredInTransit),
            1 => Some(TimeExceededCode::FragmentReassemblyTimeExceeded),
            _ => None,
        }
    }
}

impl BadIPHeaderCode {
    /// The code that the code byte `value` stands for, if any.
    pub open spec fn from_wire(value: u8) -> Option<Self> {
        match value {
            0 => Some(BadIPHeaderCode::PointerIndicatesError),
            1 => Some(BadIPHeaderCode::MissingRequiredOption),
            2 => Some(BadIPHeaderCode::BadLength),
            _ => None,
        }
    }
}

impl DestinationUnreachableV6Code {
    /// The code that the code byte `value` stands for, if any.
    pub open spec fn from_wire(value: u8) -> Option<Self> {
        match value {
            0 => Some(DestinationUnreachableV6Code::NoRouteToDestination),
            1 => Some(DestinationUnreachableV6Code::CommAdministrativelyProhibited),
            2 => Some(DestinationUnreachableV6Code::BeyondScopeOfSourceAddress),
            3 => Some(DestinationUnreachableV6Code::AddressUnreachable),
            4 => Some(DestinationUnreachableV6Code::PortUnreachable),
            5 => Some(DestinationUnreachableV6Code::SourceAddressFailedIngressEgressPolicy),
            6 => Some(DestinationUnreachableV6Code::RejectRouteToDestination),
            7 => Some(DestinationUnreachableV6Code::ErrorInSourceRoutingHeader),
            _ => None,
        }
    }
}

impl ParamProblemCode {
    /// The code that the code byte `value` stands for, if any.
    pub open spec fn from_wire(value: u8) -> Option<Self> {
        match value {
            0 => Some(ParamProblemCode::ErroneousHeaderField),
            1 => Some(ParamProblemCode::UnrecognisedNextHeaderType),
            2 => Some(ParamProblemCode::UnrecognisedIPv6Option),
            _ => None,
        }
    }
}

/// What a code parser returns for the outcome of a table lookup: the code, or
/// `UnknownCode` where the table has none.
pub open spec fn code_or_unknown<C>(code: Option<C>) -> Result<C, IntoICMPv4MessageError> {
    match code {
        Some(c) => Ok(c),
        None => Err(IntoICMPv4MessageError::UnknownCode),
    }
}

/// Parses the code byte of an ICMPv4 destination-unreachable message.
pub fn parse_unreachable_code(value: u8) -> (r: Result<
    DestinationUnreachableCode,
    IntoICMPv4MessageError,
>)
    ensures
        r == code_or_unknown(DestinationUnreachableCode::from_wire(value)),
        r is Ok <==> value <= 15,
{
    match value {
        0 => Ok(DestinationUnreachableCode::NetworkUnreachable),
        1 => Ok(DestinationUnreachableCode::HostUnreachable),
        2 => Ok(DestinationUnreachableCode::ProtocolUnreachable),
        3 => Ok(DestinationUnreachableCode::PortUnreachable),
        4 => Ok(DestinationUnreachableCode::FragmentationRequired),
        5 => Ok(DestinationUnreachableCode::SourceRouteFailed),
        6 => Ok(DestinationUnreachableCode::NetworkUnknown),
        7 => Ok(DestinationUnreachableCode::DestHostUnknown),
        8 => Ok(DestinationUnreachableCode::SourceHostIsolated),
        9 => Ok(DestinationUnreachableCode::NetAdministrativelyProhibited),
        10 => Ok(DestinationUnreachableCode::HostAdministrativelyProhibited),
        11 => Ok(DestinationUnreachableCode::NetworkUnreachableForToS),
        12 => Ok(DestinationUnreachableCode::HostUnreachableForToS),
        13 => Ok(DestinationUnreachableCode::CommAdministrativelyProhibited),
        14 => Ok(DestinationUnreachableCode::HostPrecedenceViolation),
        15 => Ok(DestinationUnreachableCode::PrecedenceCuttoffInEffect),
        _ => Err(IntoICMPv4MessageError::UnknownCode),
    }
}

/// Parses the code byte of an ICMPv4 redirect message.
pub fn parse_redirect_code(value: u8) -> (r: Result<RedirectMsgCode, IntoICMPv4MessageError>)
    ensures
        r == code_or_unknown(RedirectMsgCode::from_wire(value)),
        r is Ok <==> value <= 3,
{
    match value {
        0 => Ok(RedirectMsgCode::Network),
        1 => Ok(RedirectMsgCode::Host),
        2 => Ok(RedirectMsgCode::ToSAndNetwork),
        3 => Ok(RedirectMsgCode::ToSAndHost),
        _ => Err(IntoICMPv4MessageError::UnknownCode),
    }
}

impl TryFrom<u8> for TimeExceededCode {
    type Error = IntoICMPv4MessageError;

    /// Parses the code byte of a time-exceeded message.
    fn try_from(code: u8) -> (r: Result<Self, IntoICMPv4MessageError>)
        ensures
            r is Ok <==> code <= 1,
    {
        match code {
            0 => Ok(TimeExceededCode::ExpiredInTransit),
            1 => Ok(TimeExceededCode::FragmentReassemblyTimeExceeded),
            _ => Err(IntoICMPv4MessageError::UnknownCode),
        }
    }
}

impl TryFromSpecImpl<u8> for TimeExceededCode {
    open spec fn obeys_try_from_spec() -> bool {
        true
    }

    open spec fn try_from_spec(code: u8) -> Result<Self, IntoICMPv4MessageError> {
        code_or_unknown(TimeExceededCode::from_wire(code))
    }
}

impl TryFrom<u8> for BadIPHeaderCode {
    type Error = IntoICMPv4MessageError;

    /// Parses the code byte of a bad-IP-header message.
    fn try_from(code: u8) -> (r: Result<Self, IntoICMPv4MessageError>)
        ensures
            r is Ok <==> code <= 2,
    {
        match code {
            0 => Ok(BadIPHeaderCode::PointerIndicatesError),
            1 => Ok(BadIPHeaderCode::MissingRequiredOption),
            2 => Ok(BadIPHeaderCode::BadLength),
            _ => Err(IntoICMPv4MessageError::UnknownCode),
        }
    }
}

impl TryFromSpecImpl<u8> for BadIPHeaderCode {
    open spec fn obeys_try_from_spec() -> bool {
        true
    }

    open spec fn try_from_spec(code: u8) -> Result<Self, IntoICMPv4MessageError> {
        code_or_unknown(BadIPHeaderCode::from_wire(code))
    }
}

impl TryFrom<u8> for DestinationUnreachableV6Code {
    type Error = IntoICMPv4MessageError;

    /// Parses the code byte of an ICMPv6 destination-unreachable message.
    fn try_from(code: u8) -> (r: Result<Self, IntoICMPv4MessageError>)
        ensures
            r is Ok <==> code <= 7,
    {
        match code {
            0 => Ok(DestinationUnreachableV6Code::NoRouteToDestination),
            1 => Ok(DestinationUnreachableV6Code::CommAdministrativelyProhibited),
            2 => Ok(DestinationUnreachableV6Code::BeyondScopeOfSourceAddress),
            3 => Ok(DestinationUnreachableV6Code::AddressUnreachable),
            4 => Ok(DestinationUnreachableV6Code::PortUnreachable),
            5 => Ok(DestinationUnreachableV6Code::SourceAddressFailedIngressEgressPolicy),
            6 => Ok(DestinationUnreachableV6Code::RejectRouteToDestination),
            7 => Ok(DestinationUnreachableV6Code::ErrorInSourceRoutingHeader),
            _ => Err(IntoICMPv4MessageError::UnknownCode),
        }
    }
}

impl TryFromSpecImpl<u8> for DestinationUnreachableV6Code {
    open spec fn obeys_try_from_spec() -> bool {
        true
    }

    open spec fn try_from_spec(code: u8) -> Result<Self, IntoICMPv4MessageError> {
        code_or_unknown(DestinationUnreachableV6Code::from_wire(code))
    }
}

impl TryFrom<u8> for ParamProblemCode {
    type Error = IntoICMPv4MessageError;

    /// Parses the code byte of an ICMPv6 parameter-problem message.
    fn try_from(code: u8) -> (r: Result<Self, IntoICMPv4MessageError>)
        ensures
            r is Ok <==> code <= 2,
    {
        match code {
            0 => Ok(ParamProblemCode::ErroneousHeaderField),
            1 => Ok(ParamProblemCode::UnrecognisedNextHeaderType),
            2 => Ok(ParamProblemCode::UnrecognisedIPv6Option),
            _ => Err(IntoICMPv4MessageError::UnknownCode),
        }
    }
}

impl TryFromSpecImpl<u8> for ParamProblemCode {
    open spec fn obeys_try_from_spec() -> bool {
        true
    }

    open spec fn try_from_spec(code: u8) -> Result<Self, IntoICMPv4MessageError> {
        code_or_unknown(ParamProblemCode::from_wire(code))
    }
}

// ---------------------------------------------------------------------------
// Decoding ICMPv4
// ---------------------------------------------------------------------------

/// The least length of a message of the ICMPv4 type `ty`, or `None` where the
/// type is not supported. The two timestamp types carry three timestamps behind
/// the fixed header.
pub open spec fn v4_min_len(ty: u8) -> Option<nat> {
    if ty == 0 || ty == 3 || ty == 4 || ty == 5 || ty == 8 || ty == 9 || ty == 10 || ty == 11 || ty
        == 12 {
        Some(8)
    } else if ty == 13 || ty == 14 {
        Some(20)
    } else {
        None
    }
}

/// The kind that a buffer of a supported type and of sufficient length holds, or
/// `None` where its code byte is out of range for the type.
pub open spec fn v4_kind(bytes: Seq<u8>) -> Option<ICMPv4Type>
    recommends
        bytes.len() > 0,
        v4_min_len(bytes[0]) is Some,
        bytes.len() >= v4_min_len(bytes[0])->Some_0,
{
    let identifier = spec_be_u16(bytes, 4);
    let sequence_num = spec_be_u16(bytes, 6);
    let ty = bytes[0];
    if ty == 0 {
        Some(ICMPv4Type::EchoReply { identifier, sequence_num })
    } else if ty == 3 {
        match DestinationUnreachableCode::from_wire(bytes[1]) {
            Some(code) => Some(
                ICMPv4Type::DestinationUnreachable {
                    code,
                    length: bytes[5],
                    next_hop_mtu: spec_be_u16(bytes, 6),
                },
            ),
            None => None,
        }
    } else if ty == 4 {
        Some(ICMPv4Type::SourceQuench {  })
    } else if ty == 5 {
        match RedirectMsgCode::from_wire(bytes[1]) {
            Some(code) => Some(ICMPv4Type::RedirectMessage { code, address: spec_be_u32(bytes, 4) }),
            None => None,
        }
    } else if ty == 8 {
        Some(ICMPv4Type::EchoRequest { identifier, sequence_num })
    } else if ty == 9 {
        Some(ICMPv4Type::RouterAdvertisement {  })
    } else if ty == 10 {
        Some(ICMPv4Type::RouterSolicitation {  })
    } else if ty == 11 {
        match TimeExceededCode::from_wire(bytes[1]) {
            Some(code) => Some(ICMPv4Type::TimeExceeded { code }),
            None => None,
        }
    } else if ty == 12 {
        match BadIPHeaderCode::from_wire(bytes[1]) {
            Some(code) => Some(ICMPv4Type::BadIPHeader { code }),
            None => None,
        }
    } else if ty == 13 {
        Some(
            ICMPv4Type::Timestamp {
                identifier,
                sequence_num,
                ts_originate: spec_be_u32(bytes, 8),
                ts_receive: spec_be_u32(bytes, 12),
                ts_transmit: spec_be_u32(bytes, 16),
            },
        )
    } else {
        Some(
            ICMPv4Type::TimestampReply {
                identifier,
                sequence_num,
                ts_originate: spec_be_u32(bytes, 8),
                ts_receive: spec_be_u32(bytes, 12),
                ts_transmit: spec_be_u32(bytes, 16),
            },
        )
    }
}

/// What a buffer decodes to as an ICMPv4 message. An empty buffer is too short;
/// then the type byte decides, then the length that the type asks for, then the
/// code byte.
pub open spec fn decode_v4(bytes: Seq<u8>) -> Result<ICMPv4MessageView, IntoICMPv4MessageError> {
    if bytes.len() == 0 {
        Err(IntoICMPv4MessageError::NotLongEnough)
    } else {
        match v4_min_len(bytes[0]) {
            None => Err(IntoICMPv4MessageError::UnknownType),
            Some(needed) => if bytes.len() < needed {
                Err(IntoICMPv4MessageError::NotLongEnough)
            } else {
                match v4_kind(bytes) {
                    None => Err(IntoICMPv4MessageError::UnknownCode),
                    Some(kind) => Ok(
                        ICMPv4MessageView {
                            icmpv4_type: kind,
                            icmpv4_checksum: spec_be_u16(bytes, 2),
                            icmpv4_data: bytes.skip(8),
                        },
                    ),
                }
            },
        }
    }
}

/// Copies what follows the fixed header.
fn bytes_after_header(bytes: &[u8]) -> (tail: Vec<u8>)
    requires
        bytes@.len() >= 8,
    ensures
        tail@ == bytes@.skip(8),
{
    slice_to_vec(slice_subrange(bytes, HEADER_LEN, bytes.len()))
}

impl<'a> TryFrom<&'a [u8]> for ICMPv4Message {
    type Error = IntoICMPv4MessageError;

    /// Decodes a buffer as an ICMPv4 message. Every field is read only after the
    /// length has been tested, so no buffer makes this fail otherwise than by its
    /// error value.
    fn try_from(msgbytes: &'a [u8]) -> (r: Result<Self, IntoICMPv4MessageError>)
        ensures
            match r {
                Ok(message) => decode_v4(msgbytes@) == Ok::<
                    ICMPv4MessageView,
                    IntoICMPv4MessageError,
                >(message@),
                Err(e) => decode_v4(msgbytes@) == Err::<ICMPv4MessageView, IntoICMPv4MessageError>(
                    e,
                ),
            },
    {
        let len: usize = msgbytes.len();
        if len == 0 {
            return Err(IntoICMPv4MessageError::NotLongEnough);
        }
        let ty: u8 = msgbytes[0];
        let needed: usize = match ty {
            0 | 3 | 4 | 5 | 8 | 9 | 10 | 11 | 12 => HEADER_LEN,
            13 | 14 => TIMESTAMP_LEN,
            _ => {
                return Err(IntoICMPv4MessageError::UnknownType);
            },
        };
        if len < needed {
            return Err(IntoICMPv4MessageError::NotLongEnough);
        }
        let icmpv4_type = match ty {
            0 => ICMPv4Type::EchoReply {
                identifier: be_u16(msgbytes, 4),
                sequence_num: be_u16(msgbytes, 6),
            },
            3 => {
                let code = parse_unreachable_code(msgbytes[1])?;
                ICMPv4Type::DestinationUnreachable {
                    code,
                    length: msgbytes[5],
                    next_hop_mtu: be_u16(msgbytes, 6),
                }
            },
            4 => ICMPv4Type::SourceQuench {  },
            5 => {
                let code = parse_redirect_code(msgbytes[1])?;
                ICMPv4Type::RedirectMessage { code, address: be_u32(msgbytes, 4) }
            },
            8 => ICMPv4Type::EchoRequest {
                identifier: be_u16(msgbytes, 4),
                sequence_num: be_u16(msgbytes, 6),
            },
            9 => ICMPv4Type::RouterAdvertisement {  },
            10 => ICMPv4Type::RouterSolicitation {  },
            11 => {
                let code = TimeExceededCode::try_from(msgbytes[1])?;
                ICMPv4Type::TimeExceeded { code }
            },
            12 => {
                let code = BadIPHeaderCode::try_from(msgbytes[1])?;
                ICMPv4Type::BadIPHeader { code }
            },
            13 => ICMPv4Type::Timestamp {
                identifier: be_u16(msgbytes, 4),
                sequence_num: be_u16(msgbytes, 6),
                ts_originate: be_u32(msgbytes, 8),
                ts_receive: be_u32(msgbytes, 12),
                ts_transmit: be_u32(msgbytes, 16),
            },
            _ => ICMPv4Type::TimestampReply {
                identifier: be_u16(msgbytes, 4),
                sequence_num: be_u16(msgbytes, 6),
                ts_originate: be_u32(msgbytes, 8),
                ts_receive: be_u32(msgbytes, 12),
                ts_transmit: be_u32(msgbytes, 16),
            },
        };
        Ok(
            ICMPv4Message {
                icmpv4_type,
                icmpv4_checksum: be_u16(msgbytes, 2),
                icmpv4_data: bytes_after_header(msgbytes),
            },
        )
    }
}

impl<'a> TryFromSpecImpl<&'a [u8]> for ICMPv4Message {
    /// The contract of `try_from` speaks of views, through `decode_v4`: a message
    /// owns its data, and two messages with the same view need not be the same
    /// value.
    open spec fn obeys_try_from_spec() -> bool {
        false
    }

    open spec fn try_from_spec(msgbytes: &'a [u8]) -> Result<Self, IntoICMPv4MessageError> {
        match decode_v4(msgbytes@) {
            Ok(view) => Ok(choose|message: ICMPv4Message| message@ == view),
            Err(e) => Err(e),
        }
    }
}

// ---------------------------------------------------------------------------
// Decoding ICMPv6
// ---------------------------------------------------------------------------

/// Whether `ty` is a supported ICMPv6 type. Each of them needs the fixed header
/// and no more.
pub open spec fn v6_type_supported(ty: u8) -> bool {
    ty == 1 || ty == 2 || ty == 3 || ty == 4 || ty == 128 || ty == 129
}

/// The kind that a buffer of a supported type, at least as long as the fixed
/// header, holds, or `None` where its code byte is out of range for the type.
pub open spec fn v6_kind(bytes: Seq<u8>) -> Option<ICMPv6Type>
    recommends
        bytes.len() >= 8,
        v6_type_supported(bytes[0]),
{
    let identifier = spec_be_u16(bytes, 4);
    let sequence_num = spec_be_u16(bytes, 6);
    let ty = bytes[0];
    if ty == 1 {
        match DestinationUnreachableV6Code::from_wire(bytes[1]) {
            Some(code) => Some(ICMPv6Type::DestinationUnreachable { code }),
            None => None,
        }
    } else if ty == 2 {
        Some(ICMPv6Type::PacketTooBig { mtu: spec_be_u32(bytes, 4) })
    } else if ty == 3 {
        match TimeExceededCode::from_wire(bytes[1]) {
            Some(code) => Some(ICMPv6Type::TimeExceeded { code }),
            None => None,
        }
    } else if ty == 4 {
        match ParamProblemCode::from_wire(bytes[1]) {
            Some(code) => Some(ICMPv6Type::ParameterProblem { code, ptr: spec_be_u32(bytes, 4) }),
            None => None,
        }
    } else if ty == 128 {
        Some(ICMPv6Type::EchoRequest { identifier, sequence_num })
    } else {
        Some(ICMPv6Type::EchoReply { identifier, sequence_num })
    }
}

/// What a buffer decodes to as an ICMPv6 message. An empty buffer is too short;
/// then the type byte decides, then the length of the fixed header, then the
/// code byte.
pub open spec fn decode_v6(bytes: Seq<u8>) -> Result<ICMPv6MessageView, IntoICMPv4MessageError> {
    if bytes.len() == 0 {
        Err(IntoICMPv4MessageError::NotLongEnough)
    } else if !v6_type_supported(bytes[0]) {
        Err(IntoICMPv4MessageError::UnknownType)
    } else if bytes.len() < 8 {
        Err(IntoICMPv4MessageError::NotLongEnough)
    } else {
        match v6_kind(bytes) {
            None => Err(IntoICMPv4MessageError::UnknownCode),
            Some(kind) => Ok(
                ICMPv6MessageView {
                    icmpv6_type: kind,
                    checksum: spec_be_u16(bytes, 2),
                    body: bytes.skip(8),
                },
            ),
        }
    }
}

impl<'a> TryFrom<&'a [u8]> for ICMPv6Message {
    type Error = IntoICMPv4MessageError;

    /// Decodes a buffer as an ICMPv6 message. Every field is read only after the
    /// length has been tested.
    fn try_from(msgbytes: &'a [u8]) -> (r: Result<Self, IntoICMPv4MessageError>)
        ensures
            match r {
                Ok(message) => decode_v6(msgbytes@) == Ok::<
                    ICMPv6MessageView,
                    IntoICMPv4MessageError,
                >(message@),
                Err(e) => decode_v6(msgbytes@) == Err::<ICMPv6MessageView, IntoICMPv4MessageError>(
                    e,
                ),
            },
    {
        let len: usize = msgbytes.len();
        if len == 0 {
            return Err(IntoICMPv4MessageError::NotLongEnough);
        }
        let ty: u8 = msgbytes[0];
        match ty {
            1 | 2 | 3 | 4 | 128 | 129 => {},
            _ => {
                return Err(IntoICMPv4MessageError::UnknownType);
            },
        }
        if len < HEADER_LEN {
            return Err(IntoICMPv4MessageError::NotLongEnough);
        }
        let icmpv6_type = match ty {
            1 => {
                let code = DestinationUnreachableV6Code::try_from(msgbytes[1])?;
                ICMPv6Type::DestinationUnreachable { code }
            },
            2 => ICMPv6Type::PacketTooBig { mtu: be_u32(msgbytes, 4) },
            3 => {
                let code = TimeExceededCode::try_from(msgbytes[1])?;
                ICMPv6Type::TimeExceeded { code }
            },
            4 => {
                let code = ParamProblemCode::try_from(msgbytes[1])?;
                ICMPv6Type::ParameterProblem { code, ptr: be_u32(msgbytes, 4) }
            },
            128 => ICMPv6Type::EchoRequest {
                identifier: be_u16(msgbytes, 4),
                sequence_num: be_u16(msgbytes, 6),
            },
            _ => ICMPv6Type::EchoReply {
                identifier: be_u16(msgbytes, 4),
                sequence_num: be_u16(msgbytes, 6),
            },
        };
        Ok(
            ICMPv6Message {
                icmpv6_type,
                checksum: be_u16(msgbytes, 2),
                body: bytes_after_header(msgbytes),
            },
        )
    }
}

impl<'a> TryFromSpecImpl<&'a [u8]> for ICMPv6Message {
    /// The contract of `try_from` speaks of views, through `decode_v6`: a message
    /// owns its data, and two messages with the same view need not be the same
    /// value.
    open spec fn obeys_try_from_spec() -> bool {
        false
    }

    open spec fn try_from_spec(msgbytes: &'a [u8]) -> Result<Self, IntoICMPv4MessageError> {
        match decode_v6(msgbytes@) {
            Ok(view) => Ok(choose|message: ICMPv6Message| message@ == view),
            Err(e) => Err(e),
        }
    }
}

// ---------------------------------------------------------------------------
// Encoding echo requests
// ---------------------------------------------------------------------------

/// The fixed header of an echo request of type `ty`, its checksum field zero.
pub open spec fn echo_header(ty: u8, identifier: u16, sequence_num: u16) -> Seq<u8> {
    seq![ty, 0u8, 0u8, 0u8] + spec_u16_be_bytes(identifier) + spec_u16_be_bytes(sequence_num)
}

/// The bytes of an ICMPv4 echo request: the header with its checksum, which
/// covers the header alone, and then the data.
pub open spec fn echo_request_v4(identifier: u16, sequence_num: u16, extdata: Seq<u8>) -> Seq<u8> {
    with_checksum(echo_header(8, identifier, sequence_num)) + extdata
}

/// The bytes of an ICMPv6 echo request: the header, its checksum field left
/// zero for the sending socket to fill, and then the data.
pub open spec fn echo_request_v6(identifier: u16, sequence_num: u16, extdata: Seq<u8>) -> Seq<u8> {
    echo_header(128, identifier, sequence_num) + extdata
}

/// Builds the fixed header of an echo request, its checksum field zero.
fn build_echo_header(ty: u8, identifier: u16, sequence_num: u16) -> (header: Vec<u8>)
    ensures
        header@ == echo_header(ty, identifier, sequence_num),
{
    let mut header: Vec<u8> = Vec::with_capacity(HEADER_LEN);
    header.push(ty);
    header.push(0);
    header.push(0);
    header.push(0);
    header.push((identifier / 0x100) as u8);
    header.push((identifier % 0x100) as u8);
    header.push((sequence_num / 0x100) as u8);
    header.push((sequence_num % 0x100) as u8);
    assert(header@ =~= echo_header(ty, identifier, sequence_num));
    header
}

/// Appends a copy of `extdata` to `message`.
fn append_bytes(message: &mut Vec<u8>, extdata: &[u8])
    ensures
        final(message)@ == old(message)@ + extdata@,
{
    let mut i: usize = 0;
    while i < extdata.len()
        invariant
            i <= extdata@.len(),
            message@ == old(message)@ + extdata@.take(i as int),
        decreases extdata@.len() - i,
    {
        message.push(extdata[i]);
        assert(extdata@.take(i + 1) =~= extdata@.take(i as int).push(extdata@[i as int]));
        i = i + 1;
    }
    assert(extdata@.take(i as int) =~= extdata@);
}

/// Constructs an echo request message for ICMPv4. The identifier and the
/// sequence number are written in network byte order whatever the platform's.
pub fn construct_echo_request_v4(identifier: u16, sequence_num: u16, extdata: &[u8]) -> (message:
    Vec<u8>)
    ensures
        message@ == echo_request_v4(identifier, sequence_num, extdata@),
        message@.len() == 8 + extdata@.len(),
{
    let mut message = build_echo_header(8, identifier, sequence_num);
    populate_checksum(message.as_mut_slice());
    append_bytes(&mut message, extdata);
    message
}

/// Constructs an echo request message for ICMPv6. The checksum field stays
/// zero: it covers a pseudo-header that only the sending socket knows.
pub fn construct_echo_request_v6(identifier: u16, sequence_num: u16, extdata: &[u8]) -> (message:
    Vec<u8>)
    ensures
        message@ == echo_request_v6(identifier, sequence_num, extdata@),
        message@.len() == 8 + extdata@.len(),
{
    let mut message = build_echo_header(128, identifier, sequence_num);
    append_bytes(&mut message, extdata);
    message
}

// ---------------------------------------------------------------------------
// Laws of the codec
// ---------------------------------------------------------------------------

/// How many codes, numbered from zero, an ICMPv4 type has. A type whose code
/// byte is not read accepts every value of it.
pub open spec fn v4_code_count(ty: u8) -> nat {
    if ty == 3 {
        16
    } else if ty == 5 {
        4
    } else if ty == 11 {
        2
    } else if ty == 12 {
        3
    } else {
        256
    }
}

/// How many codes, numbered from zero, an ICMPv6 type has. A type whose code
/// byte is not read accepts every value of it.
pub open spec fn v6_code_count(ty: u8) -> nat {
    if ty == 1 {
        8
    } else if ty == 3 {
        2
    } else if ty == 4 {
        3
    } else {
        256
    }
}

/// Which buffers the ICMPv4 decoder refuses, and how: a buffer that is empty or
/// shorter than its supported type requires is too short; an unsupported type
/// byte is an unknown type, however long the buffer; a code byte out of range
/// in a buffer of sufficient length is an unknown code. Every other buffer
/// decodes.
pub proof fn lemma_decode_v4_errors(bytes: Seq<u8>)
    ensures
        decode_v4(bytes) == Err::<ICMPv4MessageView, _>(IntoICMPv4MessageError::NotLongEnough)
            <==> bytes.len() == 0 || (v4_min_len(bytes[0]) is Some && bytes.len() < v4_min_len(
            bytes[0],
        )->Some_0),
        decode_v4(bytes) == Err::<ICMPv4MessageView, _>(IntoICMPv4MessageError::UnknownType)
            <==> bytes.len() > 0 && v4_min_len(bytes[0]) is None,
        decode_v4(bytes) == Err::<ICMPv4MessageView, _>(IntoICMPv4MessageError::UnknownCode)
            <==> bytes.len() > 0 && v4_min_len(bytes[0]) is Some && bytes.len() >= v4_min_len(
            bytes[0],
        )->Some_0 && bytes[1] >= v4_code_count(bytes[0]),
        decode_v4(bytes) != Err::<ICMPv4MessageView, _>(IntoICMPv4MessageError::OtherError),
{
}

/// Which buffers the ICMPv6 decoder refuses, and how: a buffer that is empty, or
/// of a supported type and shorter than the fixed header, is too short; an
/// unsupported type byte is an unknown type, however long the buffer; a code
/// byte out of range in a buffer of sufficient length is an unknown code. Every
/// other buffer decodes.
pub proof fn lemma_decode_v6_errors(bytes: Seq<u8>)
    ensures
        decode_v6(bytes) == Err::<ICMPv6MessageView, _>(IntoICMPv4MessageError::NotLongEnough)
            <==> bytes.len() == 0 || (v6_type_supported(bytes[0]) && bytes.len() < 8),
        decode_v6(bytes) == Err::<ICMPv6MessageView, _>(IntoICMPv4MessageError::UnknownType)
            <==> bytes.len() > 0 && !v6_type_supported(bytes[0]),
        decode_v6(bytes) == Err::<ICMPv6MessageView, _>(IntoICMPv4MessageError::UnknownCode)
            <==> bytes.len() >= 8 && v6_type_supported(bytes[0]) && bytes[1] >= v6_code_count(
            bytes[0],
        ),
        decode_v6(bytes) != Err::<ICMPv6MessageView, _>(IntoICMPv4MessageError::OtherError),
{
}

/// The fields of an echo request, read back from its bytes: the header of type
/// `ty` with `checksum` written into bytes 2 and 3, followed by `extdata`.
pub proof fn lemma_echo_request_fields(
    ty: u8,
    identifier: u16,
    sequence_num: u16,
    checksum: u16,
    extdata: Seq<u8>,
)
    ensures
        ({
            let header = echo_header(ty, identifier, sequence_num);
            let bytes = header.update(2, (checksum / 0x100) as u8).update(
                3,
                (checksum % 0x100) as u8,
            ) + extdata;
            &&& bytes.len() == 8 + extdata.len()
            &&& bytes[0] == ty
            &&& spec_be_u16(bytes, 2) == checksum
            &&& spec_be_u16(bytes, 4) == identifier
            &&& spec_be_u16(bytes, 6) == sequence_num
            &&& bytes.skip(8) == extdata
            &&& (checksum == 0 ==> bytes == header + extdata)
        }),
{
    let header = echo_header(ty, identifier, sequence_num);
    let bytes = header.update(2, (checksum / 0x100) as u8).update(3, (checksum % 0x100) as u8)
        + extdata;
    assert(header.len() == 8);
    assert(bytes[2] == (checksum / 0x100) as u8);
    assert(bytes[3] == (checksum % 0x100) as u8);
    assert(bytes[4] == (identifier / 0x100) as u8);
    assert(bytes[5] == (identifier % 0x100) as u8);
    assert(bytes[6] == (sequence_num / 0x100) as u8);
    assert(bytes[7] == (sequence_num % 0x100) as u8);
    assert(bytes.skip(8) =~= extdata);
    if checksum == 0 {
        assert(bytes =~= header + extdata);
    }
}

/// Decoding an encoded ICMPv4 echo request gives an echo request with the same
/// identifier, sequence number and data, and with the checksum of its header.
pub proof fn lemma_echo_request_v4_round_trip(identifier: u16, sequence_num: u16, extdata: Seq<u8>)
    ensures
        decode_v4(echo_request_v4(identifier, sequence_num, extdata)) == Ok::<
            ICMPv4MessageView,
            IntoICMPv4MessageError,
        >(
            ICMPv4MessageView {
                icmpv4_type: ICMPv4Type::EchoRequest { identifier, sequence_num },
                icmpv4_checksum: checksum_of(echo_header(8, identifier, sequence_num)),
                icmpv4_data: extdata,
            },
        ),
{
    let checksum = checksum_of(echo_header(8, identifier, sequence_num));
    lemma_echo_request_fields(8, identifier, sequence_num, checksum, extdata);
}

/// Decoding an encoded ICMPv6 echo request gives an echo request with the same
/// identifier, sequence number and data, and with a zero checksum.
pub proof fn lemma_echo_request_v6_round_trip(identifier: u16, sequence_num: u16, extdata: Seq<u8>)
    ensures
        decode_v6(echo_request_v6(identifier, sequence_num, extdata)) == Ok::<
            ICMPv6MessageView,
            IntoICMPv4MessageError,
        >(
            ICMPv6MessageView {
                icmpv6_type: ICMPv6Type::EchoRequest { identifier, sequence_num },
                checksum: 0,
                body: extdata,
            },
        ),
{
    lemma_echo_request_fields(128, identifier, sequence_num, 0, extdata);
}

} // verus!
