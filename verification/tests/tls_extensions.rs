use tls_parser::error::{ErrorKind, ParseError};
use tls_parser::parsers::{
    parse_tls_client_hello_extension, parse_tls_client_hello_extensions,
    parse_tls_extension, parse_tls_extension_alpn_content, parse_tls_extension_compress_certificate,
    parse_tls_extension_cookie, parse_tls_extension_early_data,
    parse_tls_extension_ec_point_formats, parse_tls_extension_ec_point_formats_content,
    parse_tls_extension_encrypt_then_mac, parse_tls_extension_encrypted_client_hello,
    parse_tls_extension_encrypted_server_name, parse_tls_extension_extended_master_secret,
    parse_tls_extension_heartbeat, parse_tls_extension_heartbeat_content,
    parse_tls_extension_key_share, parse_tls_extension_max_fragment_length,
    parse_tls_extension_max_fragment_length_content, parse_tls_extension_pre_shared_key,
    parse_tls_extension_psk_key_exchange_modes, parse_tls_extension_psk_key_exchange_modes_content,
    parse_tls_extension_renegotiation_info_content, parse_tls_extension_session_ticket,
    parse_tls_extension_signature_algorithms, parse_tls_extension_signature_algorithms_content,
    parse_tls_extension_signed_certificate_timestamp_content, parse_tls_extension_sni,
    parse_tls_extension_sni_content, parse_tls_extension_sni_hostname,
    parse_tls_extension_status_request, parse_tls_extension_supported_groups,
    parse_tls_extension_supported_groups_content, parse_tls_extension_supported_versions,
    parse_tls_extension_unknown, parse_tls_extensions, parse_tls_server_hello_extension,
    parse_tls_server_hello_extensions,
};
use tls_parser::tls_common::{
    parse_named_groups, parse_tls_versions, NamedGroup, SignatureScheme, TlsCipherSuiteID,
    TlsVersion,
};
use tls_parser::tls_extensions::{
    CertificateStatusType, KeyShareEntry, OidFilter, PskKeyExchangeMode, SNIType, TlsExtension,
    TlsExtensionType,
};

const EMPTY: &[u8] = &[];

// ---------------------------------------------------------------------------
// Server name indication

#[test]
fn sni_hostname_parses_type_and_name() {
    let input = [0x00, 0x00, 0x03, b'a', b'b', b'c', 0xff];
    assert_eq!(
        parse_tls_extension_sni_hostname(&input),
        Ok((&[0xffu8][..], (SNIType(0), &b"abc"[..])))
    );
}

#[test]
fn sni_content_empty_is_empty_list() {
    assert_eq!(
        parse_tls_extension_sni_content(EMPTY),
        Ok((EMPTY, TlsExtension::SNI(vec![])))
    );
}

#[test]
fn sni_full_extension() {
    let mut input = vec![0x00, 0x00, 0x00, 0x10, 0x00, 0x0e, 0x00, 0x00, 0x0b];
    input.extend_from_slice(b"example.com");
    input.push(0x42);
    assert_eq!(
        parse_tls_extension_sni(&input),
        Ok((&[0x42u8][..], TlsExtension::SNI(vec![(SNIType::HostName(), &b"example.com"[..])])))
    );
}

#[test]
fn sni_list_stops_at_malformed_entry() {
    // list of 5 bytes: one name "a" (4 bytes), then a lone byte
    let input = [0x00, 0x05, 0x00, 0x00, 0x01, b'a', 0x07];
    assert_eq!(
        parse_tls_extension_sni_content(&input),
        Ok((EMPTY, TlsExtension::SNI(vec![(SNIType(0), &b"a"[..])])))
    );
}

#[test]
fn sni_truncated_list_is_incomplete() {
    let input = [0x00, 0x05, 0x00];
    assert_eq!(parse_tls_extension_sni_content(&input), Err(ParseError::Incomplete(4)));
}

#[test]
fn sni_wrong_type_bytes_is_tag_error() {
    let input = [0x00, 0x01, 0x00, 0x00];
    assert_eq!(
        parse_tls_extension_sni(&input),
        Err(ParseError::Error { input: &input[..], code: ErrorKind::Tag })
    );
}

#[test]
fn sni_short_type_bytes_is_incomplete() {
    assert_eq!(parse_tls_extension_sni(&[0x00]), Err(ParseError::Incomplete(1)));
    assert_eq!(parse_tls_extension_sni(EMPTY), Err(ParseError::Incomplete(2)));
}

// ---------------------------------------------------------------------------
// Fixed-form extensions

#[test]
fn max_fragment_length() {
    assert_eq!(
        parse_tls_extension_max_fragment_length(&[0x00, 0x01, 0x00, 0x01, 0x04]),
        Ok((EMPTY, TlsExtension::MaxFragmentLength(4)))
    );
    assert_eq!(
        parse_tls_extension_max_fragment_length_content(EMPTY),
        Err(ParseError::Incomplete(1))
    );
}

#[test]
fn status_request_with_and_without_content() {
    assert_eq!(
        parse_tls_extension_status_request(&[0x00, 0x05, 0x00, 0x05, 0x01, 0x00, 0x00, 0x00, 0x00]),
        Ok((
            EMPTY,
            TlsExtension::StatusRequest(Some((CertificateStatusType::OCSP(), &[0u8, 0, 0, 0][..])))
        ))
    );
    assert_eq!(
        parse_tls_extension_status_request(&[0x00, 0x05, 0x00, 0x00]),
        Ok((EMPTY, TlsExtension::StatusRequest(None)))
    );
}

#[test]
fn supported_groups_list() {
    let input = [0x00, 0x0a, 0x00, 0x06, 0x00, 0x04, 0x00, 0x17, 0x00, 0x18];
    assert_eq!(
        parse_tls_extension_supported_groups(&input),
        Ok((EMPTY, TlsExtension::SupportedGroups(vec![NamedGroup(0x17), NamedGroup(0x18)])))
    );
}

#[test]
fn supported_groups_odd_length_is_length_error() {
    let input = [0x00, 0x03, 0x00, 0x17, 0x00];
    assert_eq!(
        parse_tls_extension_supported_groups_content(&input),
        Err(ParseError::Error { input: &input[2..], code: ErrorKind::LengthValue })
    );
}

#[test]
fn ec_point_formats_type_11() {
    let input = [0x00, 0x0b, 0x00, 0x02, 0x01, 0x00];
    assert_eq!(
        parse_tls_extension_ec_point_formats(&input),
        Ok((EMPTY, TlsExtension::EcPointFormats(&[0u8][..])))
    );
    assert_eq!(parse_tls_extension_ec_point_formats(&input), parse_tls_extension(&input));
    // the type bytes of supported groups are refused
    let wrong = [0x00, 0x0a, 0x00, 0x02, 0x01, 0x00];
    assert_eq!(
        parse_tls_extension_ec_point_formats(&wrong),
        Err(ParseError::Error { input: &wrong[..], code: ErrorKind::Tag })
    );
    assert_eq!(
        parse_tls_extension_ec_point_formats_content(&[0x03, 0x00, 0x01, 0x02, 0x09]),
        Ok((&[0x09u8][..], TlsExtension::EcPointFormats(&[0u8, 1, 2][..])))
    );
}

#[test]
fn signature_algorithms_list() {
    let input = [0x00, 0x0d, 0x00, 0x06, 0x00, 0x04, 0x04, 0x03, 0x08, 0x04];
    assert_eq!(
        parse_tls_extension_signature_algorithms(&input),
        Ok((
            EMPTY,
            TlsExtension::SignatureAlgorithms(vec![SignatureScheme(0x0403), SignatureScheme(0x0804)])
        ))
    );
    // an odd trailing byte ends the list
    let content = [0x00, 0x03, 0x04, 0x03, 0x08];
    assert_eq!(
        parse_tls_extension_signature_algorithms_content(&content),
        Ok((EMPTY, TlsExtension::SignatureAlgorithms(vec![SignatureScheme(0x0403)])))
    );
}

#[test]
fn heartbeat_requires_length_one() {
    assert_eq!(
        parse_tls_extension_heartbeat(&[0x00, 0x0f, 0x00, 0x01, 0x01]),
        Ok((EMPTY, TlsExtension::Heartbeat(1)))
    );
    let sig_algs = [0x00, 0x0d, 0x00, 0x01, 0x01];
    assert_eq!(
        parse_tls_extension_heartbeat(&sig_algs),
        Err(ParseError::Error { input: &sig_algs[..], code: ErrorKind::Tag })
    );
    let long = [0x00, 0x0f, 0x00, 0x02, 0x01, 0x01];
    assert_eq!(
        parse_tls_extension_heartbeat(&long),
        Err(ParseError::Error { input: &long[2..], code: ErrorKind::Verify })
    );
    assert_eq!(
        parse_tls_extension_heartbeat_content(&[0x02]),
        Ok((EMPTY, TlsExtension::Heartbeat(2)))
    );
}

#[test]
fn alpn_protocol_names() {
    let mut input = vec![0x00, 0x0c, 0x02, b'h', b'2', 0x08];
    input.extend_from_slice(b"http/1.1");
    assert_eq!(
        parse_tls_extension_alpn_content(&input),
        Ok((EMPTY, TlsExtension::ALPN(vec![&b"h2"[..], &b"http/1.1"[..]])))
    );
}

#[test]
fn signed_certificate_timestamp_optional_content() {
    assert_eq!(
        parse_tls_extension_signed_certificate_timestamp_content(EMPTY),
        Ok((EMPTY, TlsExtension::SignedCertificateTimestamp(None)))
    );
    assert_eq!(
        parse_tls_extension_signed_certificate_timestamp_content(&[0x00, 0x02, 0x01, 0x02]),
        Ok((EMPTY, TlsExtension::SignedCertificateTimestamp(Some(&[1u8, 2][..]))))
    );
    // truncated data: no value, nothing consumed
    let input = [0x00, 0x05, 0x01];
    assert_eq!(
        parse_tls_extension_signed_certificate_timestamp_content(&input),
        Ok((&input[..], TlsExtension::SignedCertificateTimestamp(None)))
    );
}

#[test]
fn content_free_extensions() {
    assert_eq!(
        parse_tls_extension_encrypt_then_mac(&[0x00, 0x16, 0x00, 0x00]),
        Ok((EMPTY, TlsExtension::EncryptThenMac))
    );
    assert_eq!(
        parse_tls_extension_extended_master_secret(&[0x00, 0x17, 0x00, 0x01, 0x05, 0x06]),
        Ok((&[0x06u8][..], TlsExtension::ExtendedMasterSecret))
    );
}

#[test]
fn opaque_content_extensions() {
    assert_eq!(
        parse_tls_extension_session_ticket(&[0x00, 0x23, 0x00, 0x03, 1, 2, 3]),
        Ok((EMPTY, TlsExtension::SessionTicket(&[1u8, 2, 3][..])))
    );
    assert_eq!(
        parse_tls_extension_key_share(&[0x00, 0x33, 0x00, 0x02, 7, 8]),
        Ok((EMPTY, TlsExtension::KeyShareOld(&[7u8, 8][..])))
    );
    assert_eq!(
        parse_tls_extension_pre_shared_key(&[0x00, 0x29, 0x00, 0x02, 9, 9]),
        Ok((EMPTY, TlsExtension::PreSharedKey(&[9u8, 9][..])))
    );
    let psk = [0x00, 0x29, 0x00, 0x02, 0xaa, 0xbb];
    assert_eq!(parse_tls_extension_pre_shared_key(&psk), parse_tls_extension(&psk));
    assert_eq!(
        parse_tls_extension_compress_certificate(&[0x00, 0x1b, 0x00, 0x03, 0x02, 0x00, 0x01]),
        Ok((EMPTY, TlsExtension::CompressCertificate(&[2u8, 0, 1][..])))
    );
    assert_eq!(
        parse_tls_extension_cookie(&[0x00, 0x2c, 0x00, 0x01, 0xab]),
        Ok((EMPTY, TlsExtension::Cookie(&[0xabu8][..])))
    );
    assert_eq!(
        parse_tls_extension_session_ticket(&[0x00, 0x23, 0x00, 0x03, 1]),
        Err(ParseError::Incomplete(2))
    );
}

#[test]
fn early_data_optional_size() {
    assert_eq!(
        parse_tls_extension_early_data(&[0x00, 0x2a, 0x00, 0x00]),
        Ok((EMPTY, TlsExtension::EarlyData(None)))
    );
    assert_eq!(
        parse_tls_extension_early_data(&[0x00, 0x2a, 0x00, 0x04, 0x00, 0x00, 0x40, 0x00]),
        Ok((EMPTY, TlsExtension::EarlyData(Some(0x4000))))
    );
    assert_eq!(
        parse_tls_extension_early_data(&[0x00, 0x2a, 0x00, 0x02, 0x00, 0x00]),
        Err(ParseError::Incomplete(2))
    );
}

#[test]
fn supported_versions_server_and_client_forms() {
    assert_eq!(
        parse_tls_extension_supported_versions(&[0x00, 0x2b, 0x00, 0x02, 0x03, 0x04]),
        Ok((EMPTY, TlsExtension::SupportedVersions(vec![TlsVersion(0x0304)])))
    );
    assert_eq!(
        parse_tls_extension_supported_versions(&[0x00, 0x2b, 0x00, 0x05, 0x04, 0x03, 0x04, 0x03, 0x03]),
        Ok((
            EMPTY,
            TlsExtension::SupportedVersions(vec![TlsVersion(0x0304), TlsVersion(0x0303)])
        ))
    );
    let odd = [0x00, 0x2b, 0x00, 0x04, 0x03, 0x03, 0x04, 0x03];
    assert_eq!(
        parse_tls_extension_supported_versions(&odd),
        Err(ParseError::Error { input: &odd[5..], code: ErrorKind::LengthValue })
    );
    assert_eq!(
        parse_tls_extension_supported_versions(&[0x00, 0x2b, 0x00, 0x00]),
        Err(ParseError::Incomplete(1))
    );
}

#[test]
fn psk_key_exchange_modes() {
    assert_eq!(
        parse_tls_extension_psk_key_exchange_modes(&[0x00, 0x2d, 0x00, 0x02, 0x01, 0x01]),
        Ok((EMPTY, TlsExtension::PskExchangeModes(vec![PskKeyExchangeMode::PskDhe().0])))
    );
    assert_eq!(
        parse_tls_extension_psk_key_exchange_modes_content(&[0x02, 0x00]),
        Err(ParseError::Incomplete(1))
    );
}

#[test]
fn renegotiation_info() {
    assert_eq!(
        parse_tls_extension_renegotiation_info_content(&[0x00]),
        Ok((EMPTY, TlsExtension::RenegotiationInfo(EMPTY)))
    );
}

#[test]
fn encrypted_client_hello() {
    let input = [0x01, 0x00, 0x01, 0x00, 0x02, 0x05, 0x00, 0x02, 0xaa, 0xbb, 0x00, 0x01, 0xcc];
    assert_eq!(
        parse_tls_extension_encrypted_client_hello(&input),
        Ok((
            EMPTY,
            TlsExtension::EncryptedClientHello {
                ch_type: 1,
                ciphersuite: 0x0001_0002,
                config_id: 5,
                enc: &[0xaa, 0xbb],
                payload: &[0xcc],
            }
        ))
    );
}

#[test]
fn encrypted_server_name() {
    let input = [0x13, 0x01, 0x00, 0x1d, 0x00, 0x01, 0xaa, 0x00, 0x01, 0xbb, 0x00, 0x01, 0xcc];
    assert_eq!(
        parse_tls_extension_encrypted_server_name(&input),
        Ok((
            EMPTY,
            TlsExtension::EncryptedServerName {
                ciphersuite: TlsCipherSuiteID(0x1301),
                group: NamedGroup(0x1d),
                key_share: &[0xaa],
                record_digest: &[0xbb],
                encrypted_sni: &[0xcc],
            }
        ))
    );
}

#[test]
fn unknown_extension_kept_raw() {
    assert_eq!(
        parse_tls_extension_unknown(&[0xff, 0xfe, 0x00, 0x01, 0x07, 0x08]),
        Ok((&[0x08u8][..], TlsExtension::Unknown(TlsExtensionType(0xfffe), &[0x07u8][..])))
    );
}

// ---------------------------------------------------------------------------
// Generic and per-message extension parsers

#[test]
fn grease_extension() {
    let input = [0x0a, 0x0a, 0x00, 0x01, 0x00];
    let expected = Ok((EMPTY, TlsExtension::Grease(0x0a0a, &[0u8][..])));
    assert_eq!(parse_tls_extension(&input), expected);
    assert_eq!(parse_tls_client_hello_extension(&input), expected);
    assert_eq!(parse_tls_server_hello_extension(&input), expected);
    let input = [0xfa, 0xfa, 0x00, 0x00];
    assert_eq!(parse_tls_extension(&input), Ok((EMPTY, TlsExtension::Grease(0xfafa, EMPTY))));
}

#[test]
fn key_share_depends_on_table() {
    // one entry: group 0x001d, 2 bytes of key exchange data
    let client = [0x00, 0x33, 0x00, 0x08, 0x00, 0x06, 0x00, 0x1d, 0x00, 0x02, 0x01, 0x02];
    assert_eq!(
        parse_tls_client_hello_extension(&client),
        Ok((
            EMPTY,
            TlsExtension::KeyShare(vec![KeyShareEntry { group: NamedGroup(0x1d), kx: &[1, 2] }])
        ))
    );
    assert_eq!(
        parse_tls_extension(&client),
        Ok((EMPTY, TlsExtension::KeyShareOld(&client[4..])))
    );
    let server = [0x00, 0x33, 0x00, 0x06, 0x00, 0x1d, 0x00, 0x02, 0x01, 0x02];
    assert_eq!(
        parse_tls_server_hello_extension(&server),
        Ok((
            EMPTY,
            TlsExtension::KeyShare(vec![KeyShareEntry { group: NamedGroup(0x1d), kx: &[1, 2] }])
        ))
    );
}

#[test]
fn encrypted_client_hello_only_in_client_table() {
    let input = [0xfe, 0x0d, 0x00, 0x0b, 0x01, 0x00, 0x00, 0x00, 0x01, 0x02, 0x00, 0x00, 0x00, 0x01, 0x09];
    assert_eq!(
        parse_tls_client_hello_extension(&input),
        Ok((
            EMPTY,
            TlsExtension::EncryptedClientHello {
                ch_type: 1,
                ciphersuite: 1,
                config_id: 2,
                enc: EMPTY,
                payload: &[9],
            }
        ))
    );
    assert_eq!(
        parse_tls_extension(&input),
        Ok((EMPTY, TlsExtension::Unknown(TlsExtensionType(0xfe0d), &input[4..])))
    );
}

#[test]
fn server_hello_reads_padding_and_encrypt_then_mac() {
    let input = [0x00, 0x15, 0x00, 0x02, 0x00, 0x00];
    assert_eq!(
        parse_tls_server_hello_extension(&input),
        Ok((EMPTY, TlsExtension::Padding(&[0u8, 0][..])))
    );
    assert_eq!(
        parse_tls_client_hello_extension(&input),
        Ok((EMPTY, TlsExtension::Padding(&[0u8, 0][..])))
    );
    let etm = [0x00, 0x16, 0x00, 0x00];
    assert_eq!(
        parse_tls_server_hello_extension(&etm),
        Ok((EMPTY, TlsExtension::EncryptThenMac))
    );
}

#[test]
fn content_parser_need_not_consume_all_data() {
    // max fragment length with two data bytes: the second one is ignored
    let input = [0x00, 0x01, 0x00, 0x02, 0x03, 0x09, 0xee];
    assert_eq!(
        parse_tls_extension(&input),
        Ok((&[0xeeu8][..], TlsExtension::MaxFragmentLength(3)))
    );
}

#[test]
fn content_errors_propagate() {
    // max fragment length with no data byte
    assert_eq!(parse_tls_extension(&[0x00, 0x01, 0x00, 0x00]), Err(ParseError::Incomplete(1)));
}

#[test]
fn header_errors() {
    assert_eq!(parse_tls_extension(EMPTY), Err(ParseError::Incomplete(2)));
    assert_eq!(parse_tls_extension(&[0x00]), Err(ParseError::Incomplete(1)));
    assert_eq!(parse_tls_extension(&[0x00, 0x00, 0x00]), Err(ParseError::Incomplete(1)));
    assert_eq!(parse_tls_extension(&[0x00, 0x00, 0x00, 0x05, 0x01]), Err(ParseError::Incomplete(4)));
}

#[test]
fn extension_lists_stop_at_first_failure() {
    let input = [
        0x00, 0x17, 0x00, 0x00, // extended master secret
        0x00, 0x01, 0x00, 0x01, 0x02, // max fragment length 2
        0x00, 0x05, 0x00, // truncated header
    ];
    let expected = Ok((
        &input[9..],
        vec![TlsExtension::ExtendedMasterSecret, TlsExtension::MaxFragmentLength(2)],
    ));
    assert_eq!(parse_tls_extensions(&input), expected);
    assert_eq!(parse_tls_client_hello_extensions(&input), expected);
    assert_eq!(parse_tls_server_hello_extensions(&input), expected);
    assert_eq!(parse_tls_extensions(EMPTY), Ok((EMPTY, vec![])));
}

#[test]
fn oid_filters_in_generic_table() {
    let input = [0x00, 0x30, 0x00, 0x07, 0x00, 0x05, 0x01, 0x2a, 0x00, 0x01, 0x05];
    assert_eq!(
        parse_tls_extension(&input),
        Ok((
            EMPTY,
            TlsExtension::OidFilters(vec![OidFilter { cert_ext_oid: &[0x2a], cert_ext_val: &[0x05] }])
        ))
    );
}

#[test]
fn quic_transport_parameters_and_npn_in_client_table() {
    let input = [0x00, 0x39, 0x00, 0x02, 0x01, 0x02, 0x33, 0x74, 0x00, 0x00];
    assert_eq!(
        parse_tls_client_hello_extensions(&input),
        Ok((
            EMPTY,
            vec![
                TlsExtension::QuicTransportParameters(&[1u8, 2][..]),
                TlsExtension::NextProtocolNegotiation,
            ]
        ))
    );
}

#[test]
fn post_handshake_auth_and_psk_modes_in_generic_table() {
    let input = [0x00, 0x31, 0x00, 0x00, 0x00, 0x2d, 0x00, 0x02, 0x01, 0x00];
    assert_eq!(
        parse_tls_extensions(&input),
        Ok((
            EMPTY,
            vec![TlsExtension::PostHandshakeAuth, TlsExtension::PskExchangeModes(vec![0])]
        ))
    );
}

#[test]
fn typed_parser_agrees_with_generic_parser() {
    let input = [0x00, 0x2b, 0x00, 0x03, 0x02, 0x03, 0x04, 0x77];
    assert_eq!(parse_tls_extension_supported_versions(&input), parse_tls_extension(&input));
    let input = [0x00, 0x2a, 0x00, 0x00];
    assert_eq!(parse_tls_extension_early_data(&input), parse_tls_extension(&input));
}

#[test]
fn client_hello_table_agrees_with_generic_table() {
    let input = [0x00, 0x0a, 0x00, 0x04, 0x00, 0x02, 0x00, 0x1d, 0x00, 0x00, 0x00, 0x00];
    assert_eq!(parse_tls_client_hello_extension(&input), parse_tls_extension(&input));
    assert_eq!(parse_tls_client_hello_extensions(&input), parse_tls_extensions(&input));
}

#[test]
fn unlisted_type_matches_unknown_parser() {
    let input = [0x12, 0x34, 0x00, 0x02, 0x05, 0x06, 0x07];
    assert_eq!(parse_tls_extension(&input), parse_tls_extension_unknown(&input));
    assert_eq!(
        parse_tls_server_hello_extension(&input),
        Ok((&[0x07u8][..], TlsExtension::Unknown(TlsExtensionType(0x1234), &[5u8, 6][..])))
    );
}

// ---------------------------------------------------------------------------
// Types

#[test]
fn extension_type_of_values() {
    let ext = TlsExtension::SessionTicket(EMPTY);
    assert_eq!(TlsExtensionType::from(&ext), TlsExtensionType::SessionTicketTLS());
    let ext = TlsExtension::ALPN(vec![]);
    assert_eq!(TlsExtensionType::from(&ext), TlsExtensionType(16));
    let ext = TlsExtension::Grease(0x1a1a, EMPTY);
    assert_eq!(TlsExtensionType::from(&ext), TlsExtensionType(0xfafa));
    let ext = TlsExtension::Unknown(TlsExtensionType(999), EMPTY);
    assert_eq!(TlsExtensionType::from(&ext), TlsExtensionType(999));
}

#[test]
fn parsed_extension_has_wire_type() {
    let input = [0x00, 0x10, 0x00, 0x02, 0x00, 0x00];
    let (_, ext) = parse_tls_client_hello_extension(&input).unwrap();
    assert_eq!(u16::from(TlsExtensionType::from(&ext)), 16);
}

#[test]
fn extension_type_u16_conversion() {
    assert_eq!(TlsExtensionType::from_u16(43), TlsExtensionType::SupportedVersions());
    assert_eq!(u16::from(TlsExtensionType::from_u16(0xff01)), 0xff01);
    assert_eq!(TlsExtensionType::KeyShare().0, 51);
    assert_eq!(TlsExtensionType::DnssecChain(), TlsExtensionType::TicketRequest());
}

#[test]
fn code_point_parsers() {
    assert_eq!(TlsExtensionType::parse(&[0x00, 0x2b, 0x01]), Ok((&[1u8][..], TlsExtensionType(43))));
    assert_eq!(SNIType::parse(&[0x00]), Ok((EMPTY, SNIType(0))));
    assert_eq!(CertificateStatusType::parse(EMPTY), Err(ParseError::Incomplete(1)));
    assert_eq!(PskKeyExchangeMode::parse(&[0x01]), Ok((EMPTY, PskKeyExchangeMode::PskDhe())));
    assert_eq!(
        KeyShareEntry::parse(&[0x00, 0x17, 0x00, 0x01, 0x04]),
        Ok((EMPTY, KeyShareEntry { group: NamedGroup(0x17), kx: &[4] }))
    );
    assert_eq!(SignatureScheme::parse(&[0x08]), Err(ParseError::Incomplete(1)));
}

#[test]
fn u16_lists() {
    assert_eq!(parse_named_groups(EMPTY), Ok((EMPTY, vec![])));
    assert_eq!(parse_named_groups(&[0x00, 0x1d]), Ok((EMPTY, vec![NamedGroup(0x1d)])));
    assert_eq!(
        parse_tls_versions(&[0x03]),
        Err(ParseError::Error { input: &[0x03u8][..], code: ErrorKind::LengthValue })
    );
    let long = vec![0x03u8; 256];
    assert_eq!(
        parse_tls_versions(&long),
        Err(ParseError::Error { input: &long[..], code: ErrorKind::LengthValue })
    );
    let max = vec![0x03u8; 254];
    assert_eq!(parse_tls_versions(&max).map(|(_, v)| v.len()), Ok(127));
}

#[test]
fn names_of_code_points() {
    assert_eq!(TlsExtensionType(0).to_string(), "ServerName");
    assert_eq!(TlsExtensionType(58).to_string(), "TicketRequest");
    assert_eq!(TlsExtensionType(0xfe0d).to_string(), "EncryptedClientHello");
    assert_eq!(TlsExtensionType(300).to_string(), "TlsExtensionType(300 / 0x12c)");
    assert_eq!(TlsExtensionType(59).to_string(), "TlsExtensionType(59 / 0x3b)");
    assert_eq!(SNIType(0).to_string(), "HostName");
    assert_eq!(SNIType(5).to_string(), "SNIType(5 / 0x5)");
    assert_eq!(CertificateStatusType(1).to_string(), "OCSP");
    assert_eq!(CertificateStatusType(255).to_string(), "CertificateStatusType(255 / 0xff)");
}

#[test]
fn extension_parse_ignores_what_follows() {
    let one = [0x00, 0x2c, 0x00, 0x01, 0xab];
    let mut two = one.to_vec();
    two.extend_from_slice(&[0x00, 0x17, 0x00, 0x00]);
    assert_eq!(parse_tls_extension(&one), Ok((EMPTY, TlsExtension::Cookie(&[0xabu8][..]))));
    assert_eq!(
        parse_tls_extension(&two),
        Ok((&two[5..], TlsExtension::Cookie(&[0xabu8][..])))
    );
    assert_eq!(
        parse_tls_extensions(&two),
        Ok((
            EMPTY,
            vec![TlsExtension::Cookie(&[0xabu8][..]), TlsExtension::ExtendedMasterSecret]
        ))
    );
}
