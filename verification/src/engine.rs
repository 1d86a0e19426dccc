//! The rules of the ping engine: what an echo request carries, how the latency
//! is read from a reply, and which host a reply belongs to.

use crate::host::{HostAddress, HostInfo, StatusUpdate};
use crate::icmp::{
    be_u32, construct_echo_request_v4, construct_echo_request_v6, decode_v4, decode_v6,
    echo_request_v4, echo_request_v6, lemma_echo_request_v4_round_trip,
    lemma_echo_request_v6_round_trip, spec_be_u32, ICMPMessage, ICMPv4Message, ICMPv6Message,
    IntoICMPv4MessageError,
};
use vstd::prelude::*;

verus! {

/// Identifier of the echo requests sent to IPv4 hosts.
pub const IDENTIFIER_V4: u16 = 0xBEEF;

/// Identifier of the echo requests sent to IPv6 hosts.
pub const IDENTIFIER_V6: u16 = 0xCAFE;

/// Sequence number of every echo request.
pub const SEQUENCE_NUM: u16 = 1;

/// First byte of the filler that ends the data of an echo request.
pub const FILLER_FIRST: u8 = 0x10;

/// Last byte of the filler that ends the data of an echo request.
pub const FILLER_LAST: u8 = 0x37;

/// Length of the send time at the start of the data: seconds and microseconds,
/// eight bytes each.
pub const SEND_TIME_LEN: usize = 16;

// ---------------------------------------------------------------------------
// 64-bit fields
// ---------------------------------------------------------------------------

/// The eight bytes of `value` in network byte order.
pub open spec fn spec_u64_be_bytes(value: u64) -> Seq<u8> {
    seq![
        (value / 0x100_0000_0000_0000) as u8,
        (value / 0x1_0000_0000_0000 % 0x100) as u8,
        (value / 0x100_0000_0000 % 0x100) as u8,
        (value / 0x1_0000_0000 % 0x100) as u8,
        (value / 0x100_0000 % 0x100) as u8,
        (value / 0x1_0000 % 0x100) as u8,
        (value / 0x100 % 0x100) as u8,
        (value % 0x100) as u8,
    ]
}

/// Big-endian value of the eight bytes of `bytes` from `start` to `start + 7`.
pub open spec fn spec_be_u64(bytes: Seq<u8>, start: int) -> u64
    recommends
        0 <= start,
        start + 8 <= bytes.len(),
{
    (spec_be_u32(bytes, start) as int * 0x1_0000_0000 + spec_be_u32(bytes, start + 4) as int) as u64
}

/// Appends the eight bytes of `value`, in network byte order, to `message`.
fn push_be_u64(message: &mut Vec<u8>, value: u64)
    ensures
        final(message)@ == old(message)@ + spec_u64_be_bytes(value),
{
    message.push((value / 0x100_0000_0000_0000) as u8);
    message.push((value / 0x1_0000_0000_0000 % 0x100) as u8);
    message.push((value / 0x100_0000_0000 % 0x100) as u8);
    message.push((value / 0x1_0000_0000 % 0x100) as u8);
    message.push((value / 0x100_0000 % 0x100) as u8);
    message.push((value / 0x1_0000 % 0x100) as u8);
    message.push((value / 0x100 % 0x100) as u8);
    message.push((value % 0x100) as u8);
    assert(message@ =~= old(message)@ + spec_u64_be_bytes(value));
}

/// Reads a big-endian `u64` from eight bytes.
pub fn be_u64(bytes: &[u8], start: usize) -> (value: u64)
    requires
        start + 8 <= bytes@.len(),
    ensures
        value == spec_be_u64(bytes@, start as int),
{
    assert(bytes@.len() == bytes.len());
    let high: u64 = be_u32(bytes, start) as u64;
    let low: u64 = be_u32(bytes, start + 4) as u64;
    high * 0x1_0000_0000 + low
}

// ---------------------------------------------------------------------------
// The data of an echo request
// ---------------------------------------------------------------------------

/// The filler: the bytes `0x10` to `0x37`, each once, in order.
pub open spec fn ping_filler() -> Seq<u8> {
    Seq::new((FILLER_LAST - FILLER_FIRST + 1) as nat, |i: int| (FILLER_FIRST + i) as u8)
}

/// The data of an echo request sent at `secs` seconds and `micros` microseconds
/// after the epoch: the two numbers, eight bytes each, and the filler.
pub open spec fn ping_payload(secs: u64, micros: u64) -> Seq<u8> {
    spec_u64_be_bytes(secs) + spec_u64_be_bytes(micros) + ping_filler()
}

/// The echo request for a host at `host`, sent at `secs` seconds and
/// `subsec_nanos` nanoseconds after the epoch. The family of the address
/// decides the message type and the identifier.
pub open spec fn ping_packet(host: HostAddress, secs: u64, subsec_nanos: u32) -> Seq<u8> {
    let payload = ping_payload(secs, (subsec_nanos / 1000) as u64);
    match host {
        HostAddress::V4 { .. } => echo_request_v4(IDENTIFIER_V4, SEQUENCE_NUM, payload),
        HostAddress::V6 { .. } => echo_request_v6(IDENTIFIER_V6, SEQUENCE_NUM, payload),
    }
}

/// Builds the data of an echo request.
pub fn build_ping_payload(secs: u64, micros: u64) -> (payload: Vec<u8>)
    ensures
        payload@ == ping_payload(secs, micros),
        payload@.len() == 56,
{
    let mut payload: Vec<u8> = Vec::with_capacity(56);
    push_be_u64(&mut payload, secs);
    push_be_u64(&mut payload, micros);
    let ghost times = payload@;
    let mut next: u8 = FILLER_FIRST;
    while next <= FILLER_LAST
        invariant
            FILLER_FIRST <= next <= FILLER_LAST + 1,
            payload@ == times + ping_filler().take(next - FILLER_FIRST),
        decreases FILLER_LAST + 1 - next,
    {
        payload.push(next);
        assert(ping_filler().take(next + 1 - FILLER_FIRST) =~= ping_filler().take(
            next - FILLER_FIRST,
        ).push(next));
        next = next + 1;
    }
    assert(ping_filler().take(next - FILLER_FIRST) =~= ping_filler());
    payload
}

/// Builds the echo request to send to `host_info` at `secs` seconds and
/// `subsec_nanos` nanoseconds after the epoch.
pub fn build_ping(host_info: &HostInfo, secs: u64, subsec_nanos: u32) -> (packet: Vec<u8>)
    ensures
        packet@ == ping_packet(host_info.host, secs, subsec_nanos),
        packet@.len() == 64,
{
    let micros: u64 = (subsec_nanos / 1000) as u64;
    let payload = build_ping_payload(secs, micros);
    if host_info.host.is_ipv4() {
        construct_echo_request_v4(IDENTIFIER_V4, SEQUENCE_NUM, payload.as_slice())
    } else {
        construct_echo_request_v6(IDENTIFIER_V6, SEQUENCE_NUM, payload.as_slice())
    }
}

// ---------------------------------------------------------------------------
// The latency of a reply
// ---------------------------------------------------------------------------

/// The send time that `data` starts with, in microseconds since the epoch, or
/// `None` where `data` is too short to hold one.
pub open spec fn spec_embedded_send_time(data: Seq<u8>) -> Option<u128> {
    if data.len() < SEND_TIME_LEN {
        None
    } else {
        Some((spec_be_u64(data, 0) as int * 1_000_000 + spec_be_u64(data, 8) as int) as u128)
    }
}

/// Reads the send time at the start of the data of a reply.
pub fn embedded_send_time(data: &[u8]) -> (sent: Option<u128>)
    ensures
        sent == spec_embedded_send_time(data@),
{
    if data.len() < SEND_TIME_LEN {
        return None;
    }
    let secs: u128 = be_u64(data, 0) as u128;
    let micros: u128 = be_u64(data, 8) as u128;
    assert(secs * 1_000_000 + micros <= u128::MAX) by (nonlinear_arith)
        requires
            secs <= u64::MAX,
            micros <= u64::MAX,
    ;
    Some(secs * 1_000_000 + micros)
}

/// The time from `sent_micros` to `now_micros`, as a 64-bit number: where the
/// send time lies in the future, or the difference is too large, the result
/// wraps round and is not flagged.
pub open spec fn spec_latency(now_micros: u128, sent_micros: u128) -> u64 {
    ((now_micros - sent_micros) % 0x1_0000_0000_0000_0000) as u64
}

/// Computes the latency of a reply from the time of its arrival and the send
/// time that it carries.
pub fn latency(now_micros: u128, sent_micros: u128) -> (elapsed: u64)
    ensures
        elapsed == spec_latency(now_micros, sent_micros),
        sent_micros <= now_micros && now_micros - sent_micros <= u64::MAX ==> elapsed
            == now_micros - sent_micros,
{
    let now_low: u64 = (now_micros % 0x1_0000_0000_0000_0000) as u64;
    let sent_low: u64 = (sent_micros % 0x1_0000_0000_0000_0000) as u64;
    now_low.wrapping_sub(sent_low)
}

// ---------------------------------------------------------------------------
// Receiving
// ---------------------------------------------------------------------------

/// The data of the message that `bytes` decodes to, decoded in the family of
/// the address that it came from.
pub open spec fn reply_data(sender: HostAddress, bytes: Seq<u8>) -> Result<
    Seq<u8>,
    IntoICMPv4MessageError,
> {
    match sender {
        HostAddress::V4 { .. } => match decode_v4(bytes) {
            Ok(message) => Ok(message.icmpv4_data),
            Err(e) => Err(e),
        },
        HostAddress::V6 { .. } => match decode_v6(bytes) {
            Ok(message) => Ok(message.body),
            Err(e) => Err(e),
        },
    }
}

/// Decodes a datagram in the family of the address that it came from.
pub fn decode_datagram(sender: &HostAddress, datagram: &[u8]) -> (r: Result<
    ICMPMessage,
    IntoICMPv4MessageError,
>)
    ensures
        match r {
            Ok(ICMPMessage::ICMPv4(message)) => *sender is V4 && decode_v4(datagram@) == Ok::<
                _,
                IntoICMPv4MessageError,
            >(message@),
            Ok(ICMPMessage::ICMPv6(message)) => *sender is V6 && decode_v6(datagram@) == Ok::<
                _,
                IntoICMPv4MessageError,
            >(message@),
            Err(e) => reply_data(*sender, datagram@) == Err::<Seq<u8>, _>(e),
        },
        r is Ok ==> reply_data(*sender, datagram@) == Ok::<_, IntoICMPv4MessageError>(
            r->Ok_0.spec_data(),
        ),
{
    if sender.is_ipv4() {
        match ICMPv4Message::try_from(datagram) {
            Ok(message) => Ok(ICMPMessage::ICMPv4(message)),
            Err(e) => Err(e),
        }
    } else {
        match ICMPv6Message::try_from(datagram) {
            Ok(message) => Ok(ICMPMessage::ICMPv6(message)),
            Err(e) => Err(e),
        }
    }
}

/// The latency of the reply `bytes` that came from `sender` at `now_micros`
/// microseconds after the epoch. A reply that does not decode has none, for
/// the decoder's reason; one whose data is too short for a send time is not
/// long enough.
pub open spec fn spec_reply_latency(sender: HostAddress, bytes: Seq<u8>, now_micros: u128) -> Result<
    u64,
    IntoICMPv4MessageError,
> {
    match reply_data(sender, bytes) {
        Err(e) => Err(e),
        Ok(data) => match spec_embedded_send_time(data) {
            None => Err(IntoICMPv4MessageError::NotLongEnough),
            Some(sent) => Ok(spec_latency(now_micros, sent)),
        },
    }
}

/// Decodes a reply and computes its latency from the send time that it carries.
pub fn reply_latency(sender: &HostAddress, datagram: &[u8], now_micros: u128) -> (r: Result<
    u64,
    IntoICMPv4MessageError,
>)
    ensures
        r == spec_reply_latency(*sender, datagram@, now_micros),
{
    let message = decode_datagram(sender, datagram)?;
    match embedded_send_time(message.data()) {
        Some(sent) => Ok(latency(now_micros, sent)),
        None => Err(IntoICMPv4MessageError::NotLongEnough),
    }
}

/// Whether the host at `index` is the first of the table with the address
/// `addr`.
pub open spec fn is_first_host_at(table: Seq<HostInfo>, addr: HostAddress, index: int) -> bool {
    &&& 0 <= index < table.len()
    &&& table[index].host == addr
    &&& forall|j: int| 0 <= j < index ==> (#[trigger] table[j]).host != addr
}

/// Whether no host of the table has the address `addr`.
pub open spec fn no_host_at(table: Seq<HostInfo>, addr: HostAddress) -> bool {
    forall|j: int| 0 <= j < table.len() ==> (#[trigger] table[j]).host != addr
}

/// Finds the host that a reply from `addr` belongs to: the first one of the
/// table with that address.
pub fn find_host(hinfos: &[HostInfo], addr: &HostAddress) -> (r: Option<usize>)
    ensures
        match r {
            Some(index) => is_first_host_at(hinfos@, *addr, index as int),
            None => no_host_at(hinfos@, *addr),
        },
{
    let mut i: usize = 0;
    while i < hinfos.len()
        invariant
            i <= hinfos@.len(),
            forall|j: int| 0 <= j < i ==> (#[trigger] hinfos@[j]).host != *addr,
        decreases hinfos@.len() - i,
    {
        if hinfos[i].host == *addr {
            return Some(i);
        }
        i = i + 1;
    }
    None
}

/// What the receiver makes of one datagram.
#[derive(Debug, Clone, Copy, PartialEq, Eq)]
pub enum Reception {
    /// A reply of a monitored host: the update to emit.
    Reply(StatusUpdate),
    /// The reply decodes, but no monitored host has the sender's address.
    UnknownSender,
    /// The datagram is dropped for this reason.
    Undecodable(IntoICMPv4MessageError),
}

/// Decides what a datagram means that came from `sender` at `now_micros`
/// microseconds after the epoch: a datagram that does not give a latency is
/// dropped; one that does is a reply of the first host with the sender's
/// address, if there is one.
pub fn receive(hinfos: &[HostInfo], sender: &HostAddress, datagram: &[u8], now_micros: u128) -> (r:
    Reception)
    ensures
        match spec_reply_latency(*sender, datagram@, now_micros) {
            Err(e) => r == Reception::Undecodable(e),
            Ok(elapsed) => match r {
                Reception::Reply(StatusUpdate::Received(index, measured)) => measured == elapsed
                    && is_first_host_at(hinfos@, *sender, index as int),
                Reception::Reply(_) => false,
                Reception::UnknownSender => no_host_at(hinfos@, *sender),
                Reception::Undecodable(_) => false,
            },
        },
{
    match reply_latency(sender, datagram, now_micros) {
        Err(e) => Reception::Undecodable(e),
        Ok(elapsed) => match find_host(hinfos, sender) {
            Some(index) => Reception::Reply(StatusUpdate::Received(index, elapsed)),
            None => Reception::UnknownSender,
        },
    }
}

// ---------------------------------------------------------------------------
// Laws of the engine
// ---------------------------------------------------------------------------

/// The eight bytes of a `u64`, put together again four by four.
proof fn lemma_u64_bytes(value: u64)
    by (bit_vector)
    ensures
        value / 0x100_0000_0000_0000 < 0x100,
        (value / 0x100_0000_0000_0000) * 0x100_0000 + (value / 0x1_0000_0000_0000 % 0x100)
            * 0x1_0000 + (value / 0x100_0000_0000 % 0x100) * 0x100 + (value / 0x1_0000_0000 % 0x100)
            == value / 0x1_0000_0000,
        (value / 0x100_0000 % 0x100) * 0x100_0000 + (value / 0x1_0000 % 0x100) * 0x1_0000 + (value
            / 0x100 % 0x100) * 0x100 + (value % 0x100) == value % 0x1_0000_0000,
        (value / 0x1_0000_0000) * 0x1_0000_0000 + value % 0x1_0000_0000 == value,
        value / 0x1_0000_0000 <= 0xFFFF_FFFF,
{
}

/// Splitting a `u64` into its eight bytes and reading them back gives the value,
/// wherever the bytes stand.
pub proof fn lemma_be_u64_round_trip(prefix: Seq<u8>, value: u64, suffix: Seq<u8>)
    ensures
        spec_be_u64(prefix + spec_u64_be_bytes(value) + suffix, prefix.len() as int) == value,
{
    let bytes = prefix + spec_u64_be_bytes(value) + suffix;
    let at = prefix.len() as int;
    lemma_u64_bytes(value);
    assert(bytes[at] == (value / 0x100_0000_0000_0000) as u8);
    assert(bytes[at + 1] == (value / 0x1_0000_0000_0000 % 0x100) as u8);
    assert(bytes[at + 2] == (value / 0x100_0000_0000 % 0x100) as u8);
    assert(bytes[at + 3] == (value / 0x1_0000_0000 % 0x100) as u8);
    assert(bytes[at + 4] == (value / 0x100_0000 % 0x100) as u8);
    assert(bytes[at + 5] == (value / 0x1_0000 % 0x100) as u8);
    assert(bytes[at + 6] == (value / 0x100 % 0x100) as u8);
    assert(bytes[at + 7] == (value % 0x100) as u8);
    assert(spec_be_u32(bytes, at) == value / 0x1_0000_0000);
    assert(spec_be_u32(bytes, at + 4) == value % 0x1_0000_0000);
}

/// The data of an echo request holds its send time.
pub proof fn lemma_payload_holds_send_time(secs: u64, micros: u64)
    ensures
        spec_embedded_send_time(ping_payload(secs, micros)) == Some(
            (secs * 1_000_000 + micros) as u128,
        ),
{
    let payload = ping_payload(secs, micros);
    let rest = spec_u64_be_bytes(micros) + ping_filler();
    assert(payload =~= Seq::<u8>::empty() + spec_u64_be_bytes(secs) + rest);
    lemma_be_u64_round_trip(Seq::<u8>::empty(), secs, rest);
    lemma_be_u64_round_trip(spec_u64_be_bytes(secs), micros, ping_filler());
    assert(secs * 1_000_000 + micros <= u128::MAX) by (nonlinear_arith)
        requires
            secs <= u64::MAX,
            micros <= u64::MAX,
    ;
}

/// A receiver that decodes an echo request in the family that it was built for
/// finds its data unchanged.
pub proof fn lemma_request_data_survives(
    host: HostAddress,
    identifier: u16,
    sequence_num: u16,
    payload: Seq<u8>,
)
    ensures
        host is V4 ==> reply_data(host, echo_request_v4(identifier, sequence_num, payload)) == Ok::<
            _,
            IntoICMPv4MessageError,
        >(payload),
        host is V6 ==> reply_data(host, echo_request_v6(identifier, sequence_num, payload)) == Ok::<
            _,
            IntoICMPv4MessageError,
        >(payload),
{
    lemma_echo_request_v4_round_trip(identifier, sequence_num, payload);
    lemma_echo_request_v6_round_trip(identifier, sequence_num, payload);
}

/// The latency measured on an echo request that comes back unchanged is the
/// time between the moment it was built for and the moment of its arrival.
pub proof fn lemma_echoed_ping_measures_elapsed_time(
    host: HostAddress,
    secs: u64,
    subsec_nanos: u32,
    now_micros: u128,
)
    ensures
        spec_reply_latency(host, ping_packet(host, secs, subsec_nanos), now_micros) == Ok::<
            u64,
            IntoICMPv4MessageError,
        >(spec_latency(now_micros, (secs * 1_000_000 + subsec_nanos / 1000) as u128)),
{
    let micros = (subsec_nanos / 1000) as u64;
    let payload = ping_payload(secs, micros);
    lemma_request_data_survives(host, IDENTIFIER_V4, SEQUENCE_NUM, payload);
    lemma_request_data_survives(host, IDENTIFIER_V6, SEQUENCE_NUM, payload);
    lemma_payload_holds_send_time(secs, micros);
}

} // verus!
