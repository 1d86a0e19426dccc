use multiping::checksum::ones_complement_sum;
use multiping::icmp::{
    be_u16, be_u32, construct_echo_request_v4, construct_echo_request_v6, parse_redirect_code,
    parse_unreachable_code, populate_checksum, BadIPHeaderCode, DestinationUnreachableCode,
    DestinationUnreachableV6Code, ICMPMessage, ICMPv4Message, ICMPv4Type, ICMPv6Message,
    ICMPv6Type, IntoICMPv4MessageError, ParamProblemCode, RedirectMsgCode, TimeExceededCode,
};

fn v4(bytes: &[u8]) -> Result<ICMPv4Message, IntoICMPv4MessageError> {
    ICMPv4Message::try_from(bytes)
}

fn v6(bytes: &[u8]) -> Result<ICMPv6Message, IntoICMPv4MessageError> {
    ICMPv6Message::try_from(bytes)
}

#[test]
fn big_endian_fields_are_read_in_network_order() {
    let bytes = [0x12, 0x34, 0x56, 0x78, 0x9A];
    assert_eq!(be_u16(&bytes, 0), 0x1234);
    assert_eq!(be_u16(&bytes, 3), 0x789A);
    assert_eq!(be_u32(&bytes, 0), 0x1234_5678);
    assert_eq!(be_u32(&bytes, 1), 0x3456_789A);
    assert_eq!(be_u32(&[0xFF, 0xFF, 0xFF, 0xFF], 0), u32::MAX);
    assert_eq!(be_u16(&[0xFF, 0xFF], 0), u16::MAX);
}

#[test]
fn v4_echo_request_fixture() {
    let m = v4(&[8, 0, 0x39, 0x0F, 0xBE, 0xEF, 0x00, 0x01, 7, 8, 9]).unwrap();
    assert_eq!(m.icmpv4_type, ICMPv4Type::EchoRequest { identifier: 0xBEEF, sequence_num: 1 });
    assert_eq!(m.icmpv4_checksum, 0x390F);
    assert_eq!(m.icmpv4_data, vec![7, 8, 9]);
}

#[test]
fn v4_echo_reply_fixture() {
    let m = v4(&[0, 0, 0x12, 0x34, 0x00, 0x2A, 0x01, 0x00]).unwrap();
    assert_eq!(m.icmpv4_type, ICMPv4Type::EchoReply { identifier: 42, sequence_num: 256 });
    assert_eq!(m.icmpv4_checksum, 0x1234);
    assert!(m.icmpv4_data.is_empty());
}

#[test]
fn v4_destination_unreachable_fixture() {
    let m = v4(&[3, 4, 0, 0, 0, 9, 0x05, 0xDC, 0x45]).unwrap();
    assert_eq!(
        m.icmpv4_type,
        ICMPv4Type::DestinationUnreachable {
            code: DestinationUnreachableCode::FragmentationRequired,
            length: 9,
            next_hop_mtu: 1500,
        }
    );
    assert_eq!(m.icmpv4_data, vec![0x45]);
}

#[test]
fn v4_source_quench_fixture() {
    let m = v4(&[4, 0, 0xAB, 0xCD, 1, 2, 3, 4]).unwrap();
    assert_eq!(m.icmpv4_type, ICMPv4Type::SourceQuench {});
    assert_eq!(m.icmpv4_checksum, 0xABCD);
}

#[test]
fn v4_redirect_fixture() {
    let m = v4(&[5, 1, 0, 0, 192, 168, 1, 254]).unwrap();
    assert_eq!(
        m.icmpv4_type,
        ICMPv4Type::RedirectMessage { code: RedirectMsgCode::Host, address: 0xC0A8_01FE }
    );
}

#[test]
fn v4_router_messages_fixture() {
    let m = v4(&[9, 0, 0, 0, 0, 0, 0, 0]).unwrap();
    assert_eq!(m.icmpv4_type, ICMPv4Type::RouterAdvertisement {});
    let m = v4(&[10, 0, 0, 0, 0, 0, 0, 0]).unwrap();
    assert_eq!(m.icmpv4_type, ICMPv4Type::RouterSolicitation {});
}

#[test]
fn v4_time_exceeded_fixture() {
    let m = v4(&[11, 0, 0, 0, 0, 0, 0, 0]).unwrap();
    assert_eq!(m.icmpv4_type, ICMPv4Type::TimeExceeded { code: TimeExceededCode::ExpiredInTransit });
    let m = v4(&[11, 1, 0, 0, 0, 0, 0, 0]).unwrap();
    assert_eq!(
        m.icmpv4_type,
        ICMPv4Type::TimeExceeded { code: TimeExceededCode::FragmentReassemblyTimeExceeded }
    );
}

#[test]
fn v4_bad_ip_header_fixture() {
    let m = v4(&[12, 2, 0, 0, 0, 0, 0, 0]).unwrap();
    assert_eq!(m.icmpv4_type, ICMPv4Type::BadIPHeader { code: BadIPHeaderCode::BadLength });
    let m = v4(&[12, 0, 0, 0, 0, 0, 0, 0]).unwrap();
    assert_eq!(m.icmpv4_type, ICMPv4Type::BadIPHeader { code: BadIPHeaderCode::PointerIndicatesError });
    let m = v4(&[12, 1, 0, 0, 0, 0, 0, 0]).unwrap();
    assert_eq!(m.icmpv4_type, ICMPv4Type::BadIPHeader { code: BadIPHeaderCode::MissingRequiredOption });
}

#[test]
fn v4_timestamp_fixtures() {
    let bytes = [13, 0, 0, 0, 0, 1, 0, 2, 0, 0, 0, 3, 0, 0, 1, 0, 0x01, 0x02, 0x03, 0x04];
    let m = v4(&bytes).unwrap();
    assert_eq!(
        m.icmpv4_type,
        ICMPv4Type::Timestamp {
            identifier: 1,
            sequence_num: 2,
            ts_originate: 3,
            ts_receive: 256,
            ts_transmit: 0x0102_0304,
        }
    );
    assert_eq!(m.icmpv4_data, bytes[8..].to_vec());
    let mut reply = bytes;
    reply[0] = 14;
    let m = v4(&reply).unwrap();
    assert_eq!(
        m.icmpv4_type,
        ICMPv4Type::TimestampReply {
            identifier: 1,
            sequence_num: 2,
            ts_originate: 3,
            ts_receive: 256,
            ts_transmit: 0x0102_0304,
        }
    );
}

#[test]
fn v6_fixtures_one_per_kind() {
    let m = v6(&[1, 4, 0xAA, 0xBB, 0, 0, 0, 0, 1]).unwrap();
    assert_eq!(
        m.icmpv6_type,
        ICMPv6Type::DestinationUnreachable { code: DestinationUnreachableV6Code::PortUnreachable }
    );
    assert_eq!(m.checksum, 0xAABB);
    assert_eq!(m.body, vec![1]);
    let m = v6(&[2, 0, 0, 0, 0, 0, 0x05, 0x00]).unwrap();
    assert_eq!(m.icmpv6_type, ICMPv6Type::PacketTooBig { mtu: 1280 });
    let m = v6(&[3, 1, 0, 0, 0, 0, 0, 0]).unwrap();
    assert_eq!(
        m.icmpv6_type,
        ICMPv6Type::TimeExceeded { code: TimeExceededCode::FragmentReassemblyTimeExceeded }
    );
    let m = v6(&[4, 2, 0, 0, 0, 0, 0, 40]).unwrap();
    assert_eq!(
        m.icmpv6_type,
        ICMPv6Type::ParameterProblem { code: ParamProblemCode::UnrecognisedIPv6Option, ptr: 40 }
    );
    let m = v6(&[128, 0, 0, 0, 0xCA, 0xFE, 0, 1]).unwrap();
    assert_eq!(m.icmpv6_type, ICMPv6Type::EchoRequest { identifier: 0xCAFE, sequence_num: 1 });
    let m = v6(&[129, 0, 0, 0, 0xCA, 0xFE, 0, 7, 5, 6]).unwrap();
    assert_eq!(m.icmpv6_type, ICMPv6Type::EchoReply { identifier: 0xCAFE, sequence_num: 7 });
    assert_eq!(m.body, vec![5, 6]);
}

#[test]
fn empty_buffer_is_not_long_enough() {
    assert_eq!(v4(&[]).unwrap_err(), IntoICMPv4MessageError::NotLongEnough);
    assert_eq!(v6(&[]).unwrap_err(), IntoICMPv4MessageError::NotLongEnough);
}

#[test]
fn v4_truncated_buffers_are_not_long_enough() {
    for ty in [0u8, 3, 4, 5, 8, 9, 10, 11, 12, 13, 14] {
        let full = [ty, 0, 0, 0, 0, 0, 0, 0, 0, 0, 0, 0, 0, 0, 0, 0, 0, 0, 0, 0];
        let needed = if ty == 13 || ty == 14 { 20 } else { 8 };
        for len in 1..needed {
            assert_eq!(v4(&full[..len]).unwrap_err(), IntoICMPv4MessageError::NotLongEnough);
        }
        assert!(v4(&full[..needed]).is_ok());
    }
}

#[test]
fn v6_truncated_buffers_are_not_long_enough() {
    for ty in [1u8, 2, 3, 4, 128, 129] {
        let full = [ty, 0, 0, 0, 0, 0, 0, 0];
        for len in 1..8 {
            assert_eq!(v6(&full[..len]).unwrap_err(), IntoICMPv4MessageError::NotLongEnough);
        }
        assert!(v6(&full).is_ok());
    }
}

#[test]
fn truncation_is_reported_before_a_bad_code() {
    assert_eq!(v4(&[3, 99]).unwrap_err(), IntoICMPv4MessageError::NotLongEnough);
    assert_eq!(v6(&[1, 99, 0]).unwrap_err(), IntoICMPv4MessageError::NotLongEnough);
}

#[test]
fn unsupported_types_are_unknown() {
    assert_eq!(v4(&[250, 0, 0, 0, 0, 0, 0, 0]).unwrap_err(), IntoICMPv4MessageError::UnknownType);
    assert_eq!(v4(&[250]).unwrap_err(), IntoICMPv4MessageError::UnknownType);
    for ty in [1u8, 2, 6, 7, 15, 128, 255] {
        assert_eq!(v4(&[ty, 0, 0, 0, 0, 0, 0, 0]).unwrap_err(), IntoICMPv4MessageError::UnknownType);
    }
    for ty in [0u8, 5, 8, 127, 130, 250] {
        assert_eq!(v6(&[ty, 0, 0, 0, 0, 0, 0, 0]).unwrap_err(), IntoICMPv4MessageError::UnknownType);
    }
}

#[test]
fn out_of_range_codes_are_unknown() {
    assert_eq!(v4(&[3, 99, 0, 0, 0, 0, 0, 0]).unwrap_err(), IntoICMPv4MessageError::UnknownCode);
    assert_eq!(v4(&[3, 16, 0, 0, 0, 0, 0, 0]).unwrap_err(), IntoICMPv4MessageError::UnknownCode);
    assert_eq!(v4(&[5, 4, 0, 0, 0, 0, 0, 0]).unwrap_err(), IntoICMPv4MessageError::UnknownCode);
    assert_eq!(v4(&[11, 2, 0, 0, 0, 0, 0, 0]).unwrap_err(), IntoICMPv4MessageError::UnknownCode);
    assert_eq!(v4(&[12, 3, 0, 0, 0, 0, 0, 0]).unwrap_err(), IntoICMPv4MessageError::UnknownCode);
    assert_eq!(v6(&[1, 8, 0, 0, 0, 0, 0, 0]).unwrap_err(), IntoICMPv4MessageError::UnknownCode);
    assert_eq!(v6(&[3, 2, 0, 0, 0, 0, 0, 0]).unwrap_err(), IntoICMPv4MessageError::UnknownCode);
    assert_eq!(v6(&[4, 3, 0, 0, 0, 0, 0, 0]).unwrap_err(), IntoICMPv4MessageError::UnknownCode);
}

#[test]
fn code_byte_is_not_read_where_the_type_has_no_code() {
    assert!(v4(&[8, 99, 0, 0, 0, 0, 0, 0]).is_ok());
    assert!(v6(&[2, 99, 0, 0, 0, 0, 0, 0]).is_ok());
}

#[test]
fn unreachable_codes_follow_their_numbers() {
    let expected = [
        DestinationUnreachableCode::NetworkUnreachable,
        DestinationUnreachableCode::HostUnreachable,
        DestinationUnreachableCode::ProtocolUnreachable,
        DestinationUnreachableCode::PortUnreachable,
        DestinationUnreachableCode::FragmentationRequired,
        DestinationUnreachableCode::SourceRouteFailed,
        DestinationUnreachableCode::NetworkUnknown,
        DestinationUnreachableCode::DestHostUnknown,
        DestinationUnreachableCode::SourceHostIsolated,
        DestinationUnreachableCode::NetAdministrativelyProhibited,
        DestinationUnreachableCode::HostAdministrativelyProhibited,
        DestinationUnreachableCode::NetworkUnreachableForToS,
        DestinationUnreachableCode::HostUnreachableForToS,
        DestinationUnreachableCode::CommAdministrativelyProhibited,
        DestinationUnreachableCode::HostPrecedenceViolation,
        DestinationUnreachableCode::PrecedenceCuttoffInEffect,
    ];
    for (value, code) in expected.iter().enumerate() {
        assert_eq!(parse_unreachable_code(value as u8), Ok(*code));
    }
    for value in 16..=255u8 {
        assert_eq!(parse_unreachable_code(value), Err(IntoICMPv4MessageError::UnknownCode));
    }
}

#[test]
fn redirect_codes_follow_their_numbers() {
    assert_eq!(parse_redirect_code(0), Ok(RedirectMsgCode::Network));
    assert_eq!(parse_redirect_code(1), Ok(RedirectMsgCode::Host));
    assert_eq!(parse_redirect_code(2), Ok(RedirectMsgCode::ToSAndNetwork));
    assert_eq!(parse_redirect_code(3), Ok(RedirectMsgCode::ToSAndHost));
    for value in 4..=255u8 {
        assert_eq!(parse_redirect_code(value), Err(IntoICMPv4MessageError::UnknownCode));
    }
}

#[test]
fn code_conversions_follow_their_numbers() {
    assert_eq!(TimeExceededCode::try_from(0), Ok(TimeExceededCode::ExpiredInTransit));
    assert_eq!(TimeExceededCode::try_from(1), Ok(TimeExceededCode::FragmentReassemblyTimeExceeded));
    assert_eq!(TimeExceededCode::try_from(2), Err(IntoICMPv4MessageError::UnknownCode));
    assert_eq!(BadIPHeaderCode::try_from(0), Ok(BadIPHeaderCode::PointerIndicatesError));
    assert_eq!(BadIPHeaderCode::try_from(1), Ok(BadIPHeaderCode::MissingRequiredOption));
    assert_eq!(BadIPHeaderCode::try_from(2), Ok(BadIPHeaderCode::BadLength));
    assert_eq!(BadIPHeaderCode::try_from(3), Err(IntoICMPv4MessageError::UnknownCode));
    assert_eq!(ParamProblemCode::try_from(0), Ok(ParamProblemCode::ErroneousHeaderField));
    assert_eq!(ParamProblemCode::try_from(1), Ok(ParamProblemCode::UnrecognisedNextHeaderType));
    assert_eq!(ParamProblemCode::try_from(2), Ok(ParamProblemCode::UnrecognisedIPv6Option));
    assert_eq!(ParamProblemCode::try_from(3), Err(IntoICMPv4MessageError::UnknownCode));
    let v6_codes = [
        DestinationUnreachableV6Code::NoRouteToDestination,
        DestinationUnreachableV6Code::CommAdministrativelyProhibited,
        DestinationUnreachableV6Code::BeyondScopeOfSourceAddress,
        DestinationUnreachableV6Code::AddressUnreachable,
        DestinationUnreachableV6Code::PortUnreachable,
        DestinationUnreachableV6Code::SourceAddressFailedIngressEgressPolicy,
        DestinationUnreachableV6Code::RejectRouteToDestination,
        DestinationUnreachableV6Code::ErrorInSourceRoutingHeader,
    ];
    for (value, code) in v6_codes.iter().enumerate() {
        assert_eq!(DestinationUnreachableV6Code::try_from(value as u8), Ok(*code));
    }
    assert_eq!(DestinationUnreachableV6Code::try_from(8), Err(IntoICMPv4MessageError::UnknownCode));
}

#[test]
fn try_into_decodes_like_try_from() {
    let bytes = [8u8, 0, 0, 0, 0, 5, 0, 6];
    let m: ICMPv4Message = (&bytes[..]).try_into().unwrap();
    assert_eq!(m.icmpv4_type, ICMPv4Type::EchoRequest { identifier: 5, sequence_num: 6 });
    let code: Result<ParamProblemCode, IntoICMPv4MessageError> = 9u8.try_into();
    assert_eq!(code, Err(IntoICMPv4MessageError::UnknownCode));
}

#[test]
fn checksum_of_the_fixed_header() {
    let mut header = [8, 0, 0, 0, 0xBE, 0xEF, 0x00, 0x01];
    populate_checksum(&mut header);
    assert_eq!(header, [8, 0, 0x39, 0x0F, 0xBE, 0xEF, 0x00, 0x01]);
    assert_eq!(ones_complement_sum(&header), 0xFFFF);
}

#[test]
fn checksum_ignores_what_the_field_held() {
    let mut header = [8, 0, 0x12, 0x34, 0xBE, 0xEF, 0x00, 0x01];
    populate_checksum(&mut header);
    assert_eq!(header, [8, 0, 0x39, 0x0F, 0xBE, 0xEF, 0x00, 0x01]);
}

#[test]
fn checksum_folds_carries() {
    // 0xFFFF + 0x0000 + 0xFFFF + 0x0002 = 0x20000, which folds to 0x0002.
    let mut header = [0xFF, 0xFF, 0, 0, 0xFF, 0xFF, 0x00, 0x02];
    assert_eq!(ones_complement_sum(&header), 0x0002);
    populate_checksum(&mut header);
    assert_eq!(header[2..4], [0xFF, 0xFD]);
    assert_eq!(ones_complement_sum(&header), 0xFFFF);
}

#[test]
fn ones_complement_sum_edge_cases() {
    assert_eq!(ones_complement_sum(&[]), 0);
    assert_eq!(ones_complement_sum(&[0x12]), 0x1200);
    assert_eq!(ones_complement_sum(&[0x12, 0x34, 0x56]), 0x1234 + 0x5600);
    assert_eq!(ones_complement_sum(&[0xFF, 0xFF]), 0xFFFF);
    assert_eq!(ones_complement_sum(&[0xFF, 0xFF, 0x00, 0x01]), 0x0001);
    assert_eq!(ones_complement_sum(&[0u8; 64]), 0);
    assert_eq!(ones_complement_sum(&vec![0xFFu8; 400_000]), 0xFFFF);
}

#[test]
fn checksum_of_a_zero_header_is_all_ones() {
    let mut header = [0u8; 4];
    populate_checksum(&mut header);
    assert_eq!(header, [0, 0, 0xFF, 0xFF]);
}

#[test]
fn echo_request_v4_bytes() {
    let message = construct_echo_request_v4(0xBEEF, 1, &[0xAA, 0xBB]);
    assert_eq!(message, vec![8, 0, 0x39, 0x0F, 0xBE, 0xEF, 0x00, 0x01, 0xAA, 0xBB]);
    assert_eq!(ones_complement_sum(&message[..8]), 0xFFFF);
}

#[test]
fn echo_request_v6_bytes() {
    let message = construct_echo_request_v6(0xCAFE, 0x0102, &[1, 2, 3]);
    assert_eq!(message, vec![128, 0, 0, 0, 0xCA, 0xFE, 0x01, 0x02, 1, 2, 3]);
}

#[test]
fn echo_request_v4_round_trip() {
    for (identifier, sequence_num, data) in
        [(0u16, 0u16, vec![]), (0xBEEF, 1, vec![1, 2, 3]), (0xFFFF, 0xFFFF, vec![0xFF; 40])]
    {
        let message = construct_echo_request_v4(identifier, sequence_num, &data);
        let decoded = v4(&message).unwrap();
        assert_eq!(decoded.icmpv4_type, ICMPv4Type::EchoRequest { identifier, sequence_num });
        assert_eq!(decoded.icmpv4_data, data);
        assert_eq!(decoded.icmpv4_checksum, be_u16(&message, 2));
    }
}

#[test]
fn echo_request_v6_round_trip() {
    for (identifier, sequence_num, data) in
        [(0u16, 0u16, vec![]), (0xCAFE, 1, vec![1, 2, 3]), (0xFFFF, 0xFFFF, vec![0xFF; 40])]
    {
        let message = construct_echo_request_v6(identifier, sequence_num, &data);
        let decoded = v6(&message).unwrap();
        assert_eq!(decoded.icmpv6_type, ICMPv6Type::EchoRequest { identifier, sequence_num });
        assert_eq!(decoded.checksum, 0);
        assert_eq!(decoded.body, data);
    }
}

#[test]
fn message_data_of_either_family() {
    let m4 = ICMPMessage::ICMPv4(v4(&[0, 0, 0, 0, 0, 0, 0, 0, 9, 8]).unwrap());
    assert_eq!(m4.data(), &[9, 8]);
    let m6 = ICMPMessage::ICMPv6(v6(&[129, 0, 0, 0, 0, 0, 0, 0, 7]).unwrap());
    assert_eq!(m6.data(), &[7]);
}

#[test]
fn decode_errors_have_words() {
    assert_eq!(IntoICMPv4MessageError::UnknownType.description(), "unknown type");
    assert_eq!(IntoICMPv4MessageError::UnknownCode.description(), "unknown code");
    assert_eq!(IntoICMPv4MessageError::NotLongEnough.description(), "message not long enough");
    assert_eq!(IntoICMPv4MessageError::OtherError.description(), "other error");
}
