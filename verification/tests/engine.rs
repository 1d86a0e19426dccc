use multiping::checksum::ones_complement_sum;
use multiping::engine::{be_u64, build_ping_payload, decode_datagram, embedded_send_time, latency};
use multiping::icmp::{ICMPMessage, ICMPv4Type, ICMPv6Type, IntoICMPv4MessageError};
use multiping::{build_ping, find_host, receive, reply_latency, HostAddress, HostInfo, Reception, StatusUpdate};

const V4_HOST: HostAddress = HostAddress::V4 { ip: 0x0A00_0001, port: 0 };
const V6_HOST: HostAddress = HostAddress::V6 { ip: 1, port: 0, flowinfo: 0, scope_id: 0 };

fn host(name: &str, address: HostAddress) -> HostInfo {
    HostInfo::new(name, &[address]).unwrap()
}

fn expected_payload() -> Vec<u8> {
    // 0x0000_0001_0203_0405 seconds and 0x0000_0000_0001_E240 (123456) microseconds.
    let mut payload = vec![0, 0, 0, 1, 2, 3, 4, 5, 0, 0, 0, 0, 0, 0x01, 0xE2, 0x40];
    payload.extend(0x10u8..=0x37);
    payload
}

#[test]
fn be_u64_reads_in_network_order() {
    let bytes = [0xFF, 0x01, 0x02, 0x03, 0x04, 0x05, 0x06, 0x07, 0x08];
    assert_eq!(be_u64(&bytes, 1), 0x0102_0304_0506_0708);
    assert_eq!(be_u64(&[0xFF; 8], 0), u64::MAX);
}

#[test]
fn payload_is_time_and_filler() {
    let payload = build_ping_payload(0x0000_0001_0203_0405, 123_456);
    assert_eq!(payload.len(), 56);
    assert_eq!(payload, expected_payload());
    assert_eq!(payload[16], 0x10);
    assert_eq!(payload[55], 0x37);
}

#[test]
fn payload_of_the_largest_times() {
    let payload = build_ping_payload(u64::MAX, u64::MAX);
    assert_eq!(payload[..16], [0xFF; 16]);
    assert_eq!(be_u64(&payload, 0), u64::MAX);
}

#[test]
fn ping_for_an_ipv4_host() {
    let packet = build_ping(&host("a", V4_HOST), 0x0000_0001_0203_0405, 123_456_789);
    assert_eq!(packet.len(), 64);
    assert_eq!(packet[..8], [8, 0, 0x39, 0x0F, 0xBE, 0xEF, 0x00, 0x01]);
    assert_eq!(packet[8..], expected_payload()[..]);
    assert_eq!(ones_complement_sum(&packet[..8]), 0xFFFF);
}

#[test]
fn ping_for_an_ipv6_host() {
    let packet = build_ping(&host("a", V6_HOST), 0x0000_0001_0203_0405, 123_456_999);
    assert_eq!(packet.len(), 64);
    assert_eq!(packet[..8], [128, 0, 0, 0, 0xCA, 0xFE, 0x00, 0x01]);
    assert_eq!(packet[8..], expected_payload()[..]);
}

#[test]
fn nanoseconds_are_cut_to_microseconds() {
    let packet = build_ping(&host("a", V4_HOST), 0, 999);
    assert_eq!(packet[16..24], [0; 8]);
    let packet = build_ping(&host("a", V4_HOST), 0, 999_999_999);
    assert_eq!(be_u64(&packet, 16), 999_999);
}

#[test]
fn send_time_is_read_from_the_data() {
    assert_eq!(embedded_send_time(&expected_payload()), Some(0x0000_0001_0203_0405 * 1_000_000 + 123_456));
    let mut data = vec![0u8; 16];
    data[7] = 2;
    data[15] = 3;
    assert_eq!(embedded_send_time(&data), Some(2_000_003));
    assert_eq!(embedded_send_time(&data[..15]), None);
    assert_eq!(embedded_send_time(&[]), None);
    assert_eq!(
        embedded_send_time(&[0xFF; 16]),
        Some(u64::MAX as u128 * 1_000_000 + u64::MAX as u128)
    );
}

#[test]
fn latency_is_the_difference() {
    assert_eq!(latency(1_000_500, 1_000_000), 500);
    assert_eq!(latency(7, 7), 0);
    assert_eq!(latency(u64::MAX as u128, 0), u64::MAX);
}

#[test]
fn latency_wraps_where_the_send_time_is_later() {
    assert_eq!(latency(1_000_000, 1_000_001), u64::MAX);
    assert_eq!(latency(0, 5), u64::MAX - 4);
    assert_eq!(latency(1u128 << 64, 0), 0);
    assert_eq!(latency((1u128 << 64) + 9, 4), 5);
}

#[test]
fn datagram_is_decoded_in_the_family_of_its_sender() {
    let bytes = [129, 0, 0, 0, 0, 1, 0, 2, 9];
    match decode_datagram(&V6_HOST, &bytes) {
        Ok(ICMPMessage::ICMPv6(m)) => {
            assert_eq!(m.icmpv6_type, ICMPv6Type::EchoReply { identifier: 1, sequence_num: 2 });
            assert_eq!(m.body, vec![9]);
        }
        other => panic!("decoded as {:?}", other),
    }
    assert_eq!(decode_datagram(&V4_HOST, &bytes), Err(IntoICMPv4MessageError::UnknownType));
    let bytes = [0, 0, 0, 0, 0, 1, 0, 2];
    match decode_datagram(&V4_HOST, &bytes) {
        Ok(ICMPMessage::ICMPv4(m)) => {
            assert_eq!(m.icmpv4_type, ICMPv4Type::EchoReply { identifier: 1, sequence_num: 2 });
        }
        other => panic!("decoded as {:?}", other),
    }
    assert_eq!(decode_datagram(&V6_HOST, &bytes), Err(IntoICMPv4MessageError::UnknownType));
}

#[test]
fn echoed_ping_measures_the_elapsed_time() {
    for address in [V4_HOST, V6_HOST] {
        let packet = build_ping(&host("a", address), 1_700_000_000, 250_000_999);
        let now: u128 = 1_700_000_000 * 1_000_000 + 250_000 + 42_000;
        assert_eq!(reply_latency(&address, &packet, now), Ok(42_000));
    }
}

#[test]
fn reply_of_another_kind_is_measured_too() {
    let mut reply = build_ping(&host("a", V4_HOST), 10, 0);
    reply[0] = 0;
    assert_eq!(reply_latency(&V4_HOST, &reply, 10_000_123), Ok(123));
}

#[test]
fn reply_without_send_time_is_not_long_enough() {
    let mut reply = vec![0u8, 0, 0, 0, 0, 0, 0, 0];
    reply.extend([0u8; 15]);
    assert_eq!(reply_latency(&V4_HOST, &reply, 5), Err(IntoICMPv4MessageError::NotLongEnough));
    reply.push(0);
    assert_eq!(reply_latency(&V4_HOST, &reply, 5), Ok(5));
}

#[test]
fn reply_that_does_not_decode_keeps_its_reason() {
    assert_eq!(reply_latency(&V4_HOST, &[], 5), Err(IntoICMPv4MessageError::NotLongEnough));
    assert_eq!(reply_latency(&V4_HOST, &[77; 30], 5), Err(IntoICMPv4MessageError::UnknownType));
    let mut bad_code = vec![3u8, 99];
    bad_code.extend([0u8; 30]);
    assert_eq!(reply_latency(&V4_HOST, &bad_code, 5), Err(IntoICMPv4MessageError::UnknownCode));
    assert_eq!(reply_latency(&V6_HOST, &[8; 30], 5), Err(IntoICMPv4MessageError::UnknownType));
}

#[test]
fn host_is_found_by_its_address() {
    let other = HostAddress::V4 { ip: 0x0A00_0002, port: 0 };
    let table = vec![host("a", other), host("b", V4_HOST), host("c", V6_HOST), host("d", V4_HOST)];
    assert_eq!(find_host(&table, &V4_HOST), Some(1));
    assert_eq!(find_host(&table, &V6_HOST), Some(2));
    assert_eq!(find_host(&table, &other), Some(0));
    assert_eq!(find_host(&table, &HostAddress::V4 { ip: 0x0A00_0001, port: 1 }), None);
    assert_eq!(find_host(&[], &V4_HOST), None);
}

#[test]
fn addresses_differ_in_any_field() {
    let table = vec![host("a", HostAddress::V6 { ip: 1, port: 0, flowinfo: 0, scope_id: 3 })];
    assert_eq!(find_host(&table, &V6_HOST), None);
    assert_eq!(
        find_host(&table, &HostAddress::V6 { ip: 1, port: 0, flowinfo: 0, scope_id: 3 }),
        Some(0)
    );
}

#[test]
fn receiver_emits_a_reply_of_the_matching_host() {
    let table = vec![host("a", V6_HOST), host("b", V4_HOST)];
    let packet = build_ping(&table[1], 100, 5_000);
    let now: u128 = 100 * 1_000_000 + 5 + 900;
    assert_eq!(
        receive(&table, &V4_HOST, &packet, now),
        Reception::Reply(StatusUpdate::Received(1, 900))
    );
}

#[test]
fn receiver_drops_a_reply_of_an_unknown_sender() {
    let table = vec![host("a", V6_HOST)];
    let packet = build_ping(&host("b", V4_HOST), 100, 0);
    assert_eq!(receive(&table, &V4_HOST, &packet, 100_000_000), Reception::UnknownSender);
}

#[test]
fn receiver_drops_what_does_not_decode() {
    let table = vec![host("a", V4_HOST)];
    assert_eq!(
        receive(&table, &V4_HOST, &[200, 0, 0], 1),
        Reception::Undecodable(IntoICMPv4MessageError::UnknownType)
    );
    assert_eq!(
        receive(&[], &V4_HOST, &[8, 0, 0, 0], 1),
        Reception::Undecodable(IntoICMPv4MessageError::NotLongEnough)
    );
}
