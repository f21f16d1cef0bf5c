//! The wire format of TLS extensions, as functions on byte sequences. Every
//! parser of this crate is proved to compute, on every input, what the
//! function here of the same name with `spec_` in front says; the parsers
//! of whole extensions compute `spec_extension` with their table.
use vstd::prelude::*;
use crate::error::{ErrorKind, SpecParseError, SpecResult};
use crate::combinator::{
    spec_be_u8, spec_be_u16, spec_be_u32, spec_take, spec_length_data_u8, spec_length_data_u16,
    spec_tag, spec_many0_complete, spec_map_parser, value_of,
};
use crate::tls_common::{
    TlsCipherSuiteID, TlsVersion, spec_parse_named_groups, spec_parse_tls_versions,
    spec_parse_signature_scheme, spec_parse_named_group,
};
use crate::tls_extensions::{
    CertificateStatusType, SNIType, SpecKeyShareEntry, SpecOidFilter, SpecTlsExtension,
    TlsExtensionType,
};

verus! {

// ---------------------------------------------------------------------------
// Framing shared by the extension parsers that start with their own type

/// The two type bytes `a`, `b`, then a two-byte length and that many bytes,
/// which `content` parses; `content` also gets the length.
pub open spec fn spec_framed<T>(
    s: Seq<u8>,
    a: u8,
    b: u8,
    content: spec_fn(Seq<u8>, u16) -> SpecResult<T>,
) -> SpecResult<T> {
    match spec_tag(s, a, b) {
        Err(e) => Err(e),
        Ok((r, _)) => match spec_be_u16(r) {
            Err(e) => Err(e),
            Ok((r2, n)) => spec_map_parser(spec_take(r2, n as nat), |d: Seq<u8>| content(d, n)),
        },
    }
}

// ---------------------------------------------------------------------------
// Server name indication, RFC 6066

/// One server name: a one-byte name type and a name with a two-byte length.
pub open spec fn spec_parse_tls_extension_sni_hostname(s: Seq<u8>) -> SpecResult<(SNIType, Seq<u8>)> {
    match spec_be_u8(s) {
        Err(e) => Err(e),
        Ok((r, t)) => match spec_length_data_u16(r) {
            Err(e) => Err(e),
            Ok((r2, v)) => Ok((r2, (SNIType(t), v))),
        },
    }
}

/// The server name parser as a value.
pub open spec fn sni_hostname_fn() -> spec_fn(Seq<u8>) -> SpecResult<(SNIType, Seq<u8>)> {
    |x: Seq<u8>| spec_parse_tls_extension_sni_hostname(x)
}

/// Server name list: empty content (as a server sends it) is the empty list;
/// otherwise a two-byte list length and as many names as parse in the list.
pub open spec fn spec_parse_tls_extension_sni_content(s: Seq<u8>) -> SpecResult<SpecTlsExtension> {
    if s.len() == 0 {
        Ok((s, SpecTlsExtension::SNI(Seq::empty())))
    } else {
        match spec_be_u16(s) {
            Err(e) => Err(e),
            Ok((r, n)) => match spec_map_parser(
                spec_take(r, n as nat),
                |d: Seq<u8>| spec_many0_complete(sni_hostname_fn(), d),
            ) {
                Err(e) => Err(e),
                Ok((r2, v)) => Ok((r2, SpecTlsExtension::SNI(v))),
            },
        }
    }
}

/// A whole server name extension, type 0.
pub open spec fn spec_parse_tls_extension_sni(s: Seq<u8>) -> SpecResult<SpecTlsExtension> {
    spec_framed(s, 0x00, 0x00, |d: Seq<u8>, n: u16| spec_parse_tls_extension_sni_content(d))
}

// ---------------------------------------------------------------------------
// Max fragment length, RFC 6066

pub open spec fn spec_parse_tls_extension_max_fragment_length_content(s: Seq<u8>) -> SpecResult<
    SpecTlsExtension,
> {
    match spec_be_u8(s) {
        Err(e) => Err(e),
        Ok((r, x)) => Ok((r, SpecTlsExtension::MaxFragmentLength(x))),
    }
}

pub open spec fn spec_parse_tls_extension_max_fragment_length(s: Seq<u8>) -> SpecResult<
    SpecTlsExtension,
> {
    spec_framed(
        s,
        0x00,
        0x01,
        |d: Seq<u8>, n: u16| spec_parse_tls_extension_max_fragment_length_content(d),
    )
}

// ---------------------------------------------------------------------------
// Certificate status request, RFC 6066

/// No content is a request without details; otherwise a status type byte
/// and the remaining `ext_len - 1` bytes of request.
pub open spec fn spec_parse_tls_extension_status_request_content(
    s: Seq<u8>,
    ext_len: u16,
) -> SpecResult<SpecTlsExtension> {
    if ext_len == 0 {
        Ok((s, SpecTlsExtension::StatusRequest(None)))
    } else {
        match spec_be_u8(s) {
            Err(e) => Err(e),
            Ok((r, t)) => match spec_take(r, (ext_len - 1) as nat) {
                Err(e) => Err(e),
                Ok((r2, req)) => Ok(
                    (r2, SpecTlsExtension::StatusRequest(Some((CertificateStatusType(t), req)))),
                ),
            },
        }
    }
}

pub open spec fn spec_parse_tls_extension_status_request(s: Seq<u8>) -> SpecResult<SpecTlsExtension> {
    spec_framed(
        s,
        0x00,
        0x05,
        |d: Seq<u8>, n: u16| spec_parse_tls_extension_status_request_content(d, n),
    )
}

// ---------------------------------------------------------------------------
// Supported groups, RFC 8422 / RFC 7919

/// A two-byte length and a list of groups that fills it.
pub open spec fn spec_parse_tls_extension_supported_groups_content(s: Seq<u8>) -> SpecResult<
    SpecTlsExtension,
> {
    match spec_map_parser(spec_length_data_u16(s), |d: Seq<u8>| spec_parse_named_groups(d)) {
        Err(e) => Err(e),
        Ok((r, v)) => Ok((r, SpecTlsExtension::SupportedGroups(v))),
    }
}

pub open spec fn spec_parse_tls_extension_supported_groups(s: Seq<u8>) -> SpecResult<
    SpecTlsExtension,
> {
    spec_framed(
        s,
        0x00,
        0x0a,
        |d: Seq<u8>, n: u16| spec_parse_tls_extension_supported_groups_content(d),
    )
}

// ---------------------------------------------------------------------------
// EC point formats, RFC 4492

/// A one-byte length and the format bytes.
pub open spec fn spec_parse_tls_extension_ec_point_formats_content(s: Seq<u8>) -> SpecResult<
    SpecTlsExtension,
> {
    match spec_length_data_u8(s) {
        Err(e) => Err(e),
        Ok((r, v)) => Ok((r, SpecTlsExtension::EcPointFormats(v))),
    }
}

/// A whole EC point formats extension, type 11.
pub open spec fn spec_parse_tls_extension_ec_point_formats(s: Seq<u8>) -> SpecResult<
    SpecTlsExtension,
> {
    spec_framed(
        s,
        0x00,
        0x0b,
        |d: Seq<u8>, n: u16| spec_parse_tls_extension_ec_point_formats_content(d),
    )
}

// ---------------------------------------------------------------------------
// Signature algorithms, RFC 8446

/// The signature scheme parser as a value.
pub open spec fn signature_scheme_fn() -> spec_fn(Seq<u8>) -> SpecResult<crate::tls_common::SignatureScheme> {
    |x: Seq<u8>| spec_parse_signature_scheme(x)
}

/// A two-byte length and as many schemes as parse in it.
pub open spec fn spec_parse_tls_extension_signature_algorithms_content(s: Seq<u8>) -> SpecResult<
    SpecTlsExtension,
> {
    match spec_map_parser(
        spec_length_data_u16(s),
        |d: Seq<u8>| spec_many0_complete(signature_scheme_fn(), d),
    ) {
        Err(e) => Err(e),
        Ok((r, v)) => Ok((r, SpecTlsExtension::SignatureAlgorithms(v))),
    }
}

pub open spec fn spec_parse_tls_extension_signature_algorithms(s: Seq<u8>) -> SpecResult<
    SpecTlsExtension,
> {
    spec_framed(
        s,
        0x00,
        13,
        |d: Seq<u8>, n: u16| spec_parse_tls_extension_signature_algorithms_content(d),
    )
}

// ---------------------------------------------------------------------------
// Heartbeat, RFC 6520

pub open spec fn spec_parse_tls_extension_heartbeat_content(s: Seq<u8>) -> SpecResult<
    SpecTlsExtension,
> {
    match spec_be_u8(s) {
        Err(e) => Err(e),
        Ok((r, x)) => Ok((r, SpecTlsExtension::Heartbeat(x))),
    }
}

/// A whole heartbeat extension, type 15: a length that must be 1, and the
/// mode byte.
pub open spec fn spec_parse_tls_extension_heartbeat(s: Seq<u8>) -> SpecResult<SpecTlsExtension> {
    match spec_tag(s, 0x00, 0x0f) {
        Err(e) => Err(e),
        Ok((r, _)) => match spec_be_u16(r) {
            Err(e) => Err(e),
            Ok((r2, n)) => if n != 1 {
                Err(SpecParseError::Error { input: r, code: ErrorKind::Verify })
            } else {
                spec_map_parser(
                    spec_take(r2, n as nat),
                    |d: Seq<u8>| spec_parse_tls_extension_heartbeat_content(d),
                )
            },
        },
    }
}

// ---------------------------------------------------------------------------
// Application layer protocol negotiation, RFC 7301

/// A protocol name with a one-byte length.
pub open spec fn spec_parse_protocol_name(s: Seq<u8>) -> SpecResult<Seq<u8>> {
    spec_length_data_u8(s)
}

/// The protocol name parser as a value.
pub open spec fn protocol_name_fn() -> spec_fn(Seq<u8>) -> SpecResult<Seq<u8>> {
    |x: Seq<u8>| spec_parse_protocol_name(x)
}

/// A two-byte length and as many protocol names as parse in it.
pub open spec fn spec_parse_tls_extension_alpn_content(s: Seq<u8>) -> SpecResult<SpecTlsExtension> {
    match spec_map_parser(
        spec_length_data_u16(s),
        |d: Seq<u8>| spec_many0_complete(protocol_name_fn(), d),
    ) {
        Err(e) => Err(e),
        Ok((r, v)) => Ok((r, SpecTlsExtension::ALPN(v))),
    }
}

// ---------------------------------------------------------------------------
// Extensions whose content is `ext_len` opaque bytes

/// Padding, RFC 7685.
pub open spec fn spec_parse_tls_extension_padding_content(s: Seq<u8>, ext_len: u16) -> SpecResult<
    SpecTlsExtension,
> {
    match spec_take(s, ext_len as nat) {
        Err(e) => Err(e),
        Ok((r, v)) => Ok((r, SpecTlsExtension::Padding(v))),
    }
}

pub open spec fn spec_parse_tls_extension_session_ticket_content(
    s: Seq<u8>,
    ext_len: u16,
) -> SpecResult<SpecTlsExtension> {
    match spec_take(s, ext_len as nat) {
        Err(e) => Err(e),
        Ok((r, v)) => Ok((r, SpecTlsExtension::SessionTicket(v))),
    }
}

pub open spec fn spec_parse_tls_extension_session_ticket(s: Seq<u8>) -> SpecResult<SpecTlsExtension> {
    spec_framed(
        s,
        0x00,
        0x23,
        |d: Seq<u8>, n: u16| spec_parse_tls_extension_session_ticket_content(d, n),
    )
}

pub open spec fn spec_parse_tls_extension_key_share_old_content(
    s: Seq<u8>,
    ext_len: u16,
) -> SpecResult<SpecTlsExtension> {
    match spec_take(s, ext_len as nat) {
        Err(e) => Err(e),
        Ok((r, v)) => Ok((r, SpecTlsExtension::KeyShareOld(v))),
    }
}

/// The key share extension, type 51, kept as raw bytes.
pub open spec fn spec_parse_tls_extension_key_share(s: Seq<u8>) -> SpecResult<SpecTlsExtension> {
    spec_framed(
        s,
        0x00,
        0x33,
        |d: Seq<u8>, n: u16| spec_parse_tls_extension_key_share_old_content(d, n),
    )
}

pub open spec fn spec_parse_tls_extension_pre_shared_key_content(
    s: Seq<u8>,
    ext_len: u16,
) -> SpecResult<SpecTlsExtension> {
    match spec_take(s, ext_len as nat) {
        Err(e) => Err(e),
        Ok((r, v)) => Ok((r, SpecTlsExtension::PreSharedKey(v))),
    }
}

pub open spec fn spec_parse_tls_extension_pre_shared_key(s: Seq<u8>) -> SpecResult<SpecTlsExtension> {
    spec_framed(
        s,
        0x00,
        0x29,
        |d: Seq<u8>, n: u16| spec_parse_tls_extension_pre_shared_key_content(d, n),
    )
}

pub open spec fn spec_parse_tls_extension_compress_certificate_content(
    s: Seq<u8>,
    ext_len: u16,
) -> SpecResult<SpecTlsExtension> {
    match spec_take(s, ext_len as nat) {
        Err(e) => Err(e),
        Ok((r, v)) => Ok((r, SpecTlsExtension::CompressCertificate(v))),
    }
}

pub open spec fn spec_parse_tls_extension_compress_certificate(s: Seq<u8>) -> SpecResult<
    SpecTlsExtension,
> {
    spec_framed(
        s,
        0x00,
        0x1b,
        |d: Seq<u8>, n: u16| spec_parse_tls_extension_compress_certificate_content(d, n),
    )
}

pub open spec fn spec_parse_tls_extension_cookie_content(s: Seq<u8>, ext_len: u16) -> SpecResult<
    SpecTlsExtension,
> {
    match spec_take(s, ext_len as nat) {
        Err(e) => Err(e),
        Ok((r, v)) => Ok((r, SpecTlsExtension::Cookie(v))),
    }
}

pub open spec fn spec_parse_tls_extension_cookie(s: Seq<u8>) -> SpecResult<SpecTlsExtension> {
    spec_framed(s, 0x00, 0x2c, |d: Seq<u8>, n: u16| spec_parse_tls_extension_cookie_content(d, n))
}

/// QUIC transport parameters, RFC 9001.
pub open spec fn spec_parse_tls_extension_quic_transport_parameters(
    s: Seq<u8>,
    ext_len: u16,
) -> SpecResult<SpecTlsExtension> {
    match spec_take(s, ext_len as nat) {
        Err(e) => Err(e),
        Ok((r, v)) => Ok((r, SpecTlsExtension::QuicTransportParameters(v))),
    }
}

// ---------------------------------------------------------------------------
// Signed certificate timestamp, RFC 6962

/// Bytes with a two-byte length if they are all there; otherwise no value
/// and nothing consumed.
pub open spec fn spec_parse_tls_extension_signed_certificate_timestamp_content(
    s: Seq<u8>,
) -> SpecResult<SpecTlsExtension> {
    match spec_length_data_u16(s) {
        Err(_) => Ok((s, SpecTlsExtension::SignedCertificateTimestamp(None))),
        Ok((r, v)) => Ok((r, SpecTlsExtension::SignedCertificateTimestamp(Some(v)))),
    }
}

// ---------------------------------------------------------------------------
// Extensions without content: the content is not read

pub open spec fn spec_parse_tls_extension_encrypt_then_mac(s: Seq<u8>) -> SpecResult<
    SpecTlsExtension,
> {
    spec_framed(s, 0x00, 0x16, |d: Seq<u8>, n: u16| Ok((d, SpecTlsExtension::EncryptThenMac)))
}

pub open spec fn spec_parse_tls_extension_extended_master_secret(s: Seq<u8>) -> SpecResult<
    SpecTlsExtension,
> {
    spec_framed(
        s,
        0x00,
        0x17,
        |d: Seq<u8>, n: u16| Ok((d, SpecTlsExtension::ExtendedMasterSecret)),
    )
}

// ---------------------------------------------------------------------------
// Record size limit, RFC 8449

pub open spec fn spec_parse_tls_extension_record_size_limit(s: Seq<u8>) -> SpecResult<
    SpecTlsExtension,
> {
    match spec_be_u16(s) {
        Err(e) => Err(e),
        Ok((r, x)) => Ok((r, SpecTlsExtension::RecordSizeLimit(x))),
    }
}

// ---------------------------------------------------------------------------
// Key share, RFC 8446

/// A named group and key exchange data with a two-byte length.
pub open spec fn spec_parse_keyshare_entry(s: Seq<u8>) -> SpecResult<SpecKeyShareEntry> {
    match spec_parse_named_group(s) {
        Err(e) => Err(e),
        Ok((r, g)) => match spec_length_data_u16(r) {
            Err(e) => Err(e),
            Ok((r2, kx)) => Ok((r2, SpecKeyShareEntry { group: g, kx })),
        },
    }
}

/// The key share entry parser as a value.
pub open spec fn keyshare_entry_fn() -> spec_fn(Seq<u8>) -> SpecResult<SpecKeyShareEntry> {
    |x: Seq<u8>| spec_parse_keyshare_entry(x)
}

/// A client's shares: a two-byte length and as many entries as parse in it.
pub open spec fn spec_parse_tls_extension_client_shares_content(s: Seq<u8>) -> SpecResult<
    SpecTlsExtension,
> {
    match spec_map_parser(
        spec_length_data_u16(s),
        |d: Seq<u8>| spec_many0_complete(keyshare_entry_fn(), d),
    ) {
        Err(e) => Err(e),
        Ok((r, v)) => Ok((r, SpecTlsExtension::KeyShare(v))),
    }
}

/// A server's share: a single entry.
pub open spec fn spec_parse_tls_extension_server_share_content(s: Seq<u8>) -> SpecResult<
    SpecTlsExtension,
> {
    match spec_parse_keyshare_entry(s) {
        Err(e) => Err(e),
        Ok((r, t)) => Ok((r, SpecTlsExtension::KeyShare(seq![t]))),
    }
}

// ---------------------------------------------------------------------------
// Early data, RFC 8446

/// Empty content is no value; otherwise a 32-bit maximum size.
pub open spec fn spec_parse_tls_extension_early_data_content(s: Seq<u8>, ext_len: u16) -> SpecResult<
    SpecTlsExtension,
> {
    if ext_len > 0 {
        match spec_be_u32(s) {
            Err(e) => Err(e),
            Ok((r, x)) => Ok((r, SpecTlsExtension::EarlyData(Some(x)))),
        }
    } else {
        Ok((s, SpecTlsExtension::EarlyData(None)))
    }
}

pub open spec fn spec_parse_tls_extension_early_data(s: Seq<u8>) -> SpecResult<SpecTlsExtension> {
    spec_framed(
        s,
        0x00,
        0x2a,
        |d: Seq<u8>, n: u16| spec_parse_tls_extension_early_data_content(d, n),
    )
}

// ---------------------------------------------------------------------------
// Supported versions, RFC 8446

/// Two bytes of content are the version a server selected; otherwise a
/// one-byte length, ignored, then the `ext_len - 1` remaining bytes hold
/// the client's list of versions.
pub open spec fn spec_parse_tls_extension_supported_versions_content(
    s: Seq<u8>,
    ext_len: u16,
) -> SpecResult<SpecTlsExtension> {
    if ext_len == 2 {
        match spec_be_u16(s) {
            Err(e) => Err(e),
            Ok((r, x)) => Ok((r, SpecTlsExtension::SupportedVersions(seq![TlsVersion(x)]))),
        }
    } else {
        match spec_be_u8(s) {
            Err(e) => Err(e),
            Ok((r, _)) => match spec_map_parser(
                spec_take(r, (ext_len - 1) as nat),
                |d: Seq<u8>| spec_parse_tls_versions(d),
            ) {
                Err(e) => Err(e),
                Ok((r2, l)) => Ok((r2, SpecTlsExtension::SupportedVersions(l))),
            },
        }
    }
}

pub open spec fn spec_parse_tls_extension_supported_versions(s: Seq<u8>) -> SpecResult<
    SpecTlsExtension,
> {
    spec_framed(
        s,
        0x00,
        0x2b,
        |d: Seq<u8>, n: u16| spec_parse_tls_extension_supported_versions_content(d, n),
    )
}

// ---------------------------------------------------------------------------
// PSK key exchange modes, RFC 8446

/// A one-byte length and the mode bytes.
pub open spec fn spec_parse_tls_extension_psk_key_exchange_modes_content(s: Seq<u8>) -> SpecResult<
    SpecTlsExtension,
> {
    match spec_length_data_u8(s) {
        Err(e) => Err(e),
        Ok((r, v)) => Ok((r, SpecTlsExtension::PskExchangeModes(v))),
    }
}

pub open spec fn spec_parse_tls_extension_psk_key_exchange_modes(s: Seq<u8>) -> SpecResult<
    SpecTlsExtension,
> {
    spec_framed(
        s,
        0x00,
        0x2d,
        |d: Seq<u8>, n: u16| spec_parse_tls_extension_psk_key_exchange_modes_content(d),
    )
}

// ---------------------------------------------------------------------------
// Renegotiation info, RFC 5746

pub open spec fn spec_parse_tls_extension_renegotiation_info_content(s: Seq<u8>) -> SpecResult<
    SpecTlsExtension,
> {
    match spec_length_data_u8(s) {
        Err(e) => Err(e),
        Ok((r, v)) => Ok((r, SpecTlsExtension::RenegotiationInfo(v))),
    }
}

// ---------------------------------------------------------------------------
// Encrypted client hello and encrypted server name, draft-ietf-tls-esni

/// Type byte, 32-bit cipher suite, config id byte, then `enc` and
/// `payload`, each with a two-byte length.
pub open spec fn spec_parse_tls_extension_encrypted_client_hello(s: Seq<u8>) -> SpecResult<
    SpecTlsExtension,
> {
    match spec_be_u8(s) {
        Err(e) => Err(e),
        Ok((r1, ch_type)) => match spec_be_u32(r1) {
            Err(e) => Err(e),
            Ok((r2, ciphersuite)) => match spec_be_u8(r2) {
                Err(e) => Err(e),
                Ok((r3, config_id)) => match spec_length_data_u16(r3) {
                    Err(e) => Err(e),
                    Ok((r4, enc)) => match spec_length_data_u16(r4) {
                        Err(e) => Err(e),
                        Ok((r5, payload)) => Ok(
                            (
                                r5,
                                SpecTlsExtension::EncryptedClientHello {
                                    ch_type,
                                    ciphersuite,
                                    config_id,
                                    enc,
                                    payload,
                                },
                            ),
                        ),
                    },
                },
            },
        },
    }
}

/// 16-bit cipher suite, 16-bit named group, then key share, record digest
/// and encrypted name, each with a two-byte length.
pub open spec fn spec_parse_tls_extension_encrypted_server_name(s: Seq<u8>) -> SpecResult<
    SpecTlsExtension,
> {
    match spec_be_u16(s) {
        Err(e) => Err(e),
        Ok((r1, cs)) => match spec_parse_named_group(r1) {
            Err(e) => Err(e),
            Ok((r2, group)) => match spec_length_data_u16(r2) {
                Err(e) => Err(e),
                Ok((r3, key_share)) => match spec_length_data_u16(r3) {
                    Err(e) => Err(e),
                    Ok((r4, record_digest)) => match spec_length_data_u16(r4) {
                        Err(e) => Err(e),
                        Ok((r5, encrypted_sni)) => Ok(
                            (
                                r5,
                                SpecTlsExtension::EncryptedServerName {
                                    ciphersuite: TlsCipherSuiteID(cs),
                                    group,
                                    key_share,
                                    record_digest,
                                    encrypted_sni,
                                },
                            ),
                        ),
                    },
                },
            },
        },
    }
}

// ---------------------------------------------------------------------------
// OID filters, TLS 1.3 draft 19

/// An OID with a one-byte length and a value with a two-byte length.
pub open spec fn spec_parse_tls_oid_filter(s: Seq<u8>) -> SpecResult<SpecOidFilter> {
    match spec_length_data_u8(s) {
        Err(e) => Err(e),
        Ok((r, oid)) => match spec_length_data_u16(r) {
            Err(e) => Err(e),
            Ok((r2, val)) => Ok((r2, SpecOidFilter { cert_ext_oid: oid, cert_ext_val: val })),
        },
    }
}

/// The OID filter parser as a value.
pub open spec fn oid_filter_fn() -> spec_fn(Seq<u8>) -> SpecResult<SpecOidFilter> {
    |x: Seq<u8>| spec_parse_tls_oid_filter(x)
}

/// A two-byte length and as many filters as parse in it.
pub open spec fn spec_parse_tls_extension_oid_filters(s: Seq<u8>) -> SpecResult<SpecTlsExtension> {
    match spec_map_parser(
        spec_length_data_u16(s),
        |d: Seq<u8>| spec_many0_complete(oid_filter_fn(), d),
    ) {
        Err(e) => Err(e),
        Ok((r, v)) => Ok((r, SpecTlsExtension::OidFilters(v))),
    }
}

// ---------------------------------------------------------------------------
// Any extension: type, length, data

/// A type, and data with a two-byte length, kept unparsed.
pub open spec fn spec_parse_tls_extension_unknown(s: Seq<u8>) -> SpecResult<SpecTlsExtension> {
    match spec_be_u16(s) {
        Err(e) => Err(e),
        Ok((r, t)) => match spec_length_data_u16(r) {
            Err(e) => Err(e),
            Ok((r2, d)) => Ok((r2, SpecTlsExtension::Unknown(TlsExtensionType(t), d))),
        },
    }
}

/// GREASE values (RFC 8701) have both low nibbles of each byte equal to 0xa.
pub open spec fn is_grease(t: u16) -> bool {
    t & 0x0f0f == 0x0a0a
}

/// Which table of content parsers an extension is read with.
pub enum Context {
    /// Extensions of a client hello.
    ClientHello,
    /// Extensions of a server hello.
    ServerHello,
    /// Extensions of any message.
    Any,
}

/// The content `data` of an extension of type `t`, as the table of `ctx`
/// reads it. A type that the table does not list is kept unparsed.
pub open spec fn spec_extension_content(ctx: Context, t: u16, data: Seq<u8>) -> Result<
    SpecTlsExtension,
    SpecParseError,
> {
    let n = data.len() as u16;
    let unknown = Ok(SpecTlsExtension::Unknown(TlsExtensionType(t), data));
    match ctx {
        Context::ClientHello => if t == 0 {
            value_of(spec_parse_tls_extension_sni_content(data))
        } else if t == 1 {
            value_of(spec_parse_tls_extension_max_fragment_length_content(data))
        } else if t == 5 {
            value_of(spec_parse_tls_extension_status_request_content(data, n))
        } else if t == 10 {
            value_of(spec_parse_tls_extension_supported_groups_content(data))
        } else if t == 11 {
            value_of(spec_parse_tls_extension_ec_point_formats_content(data))
        } else if t == 13 {
            value_of(spec_parse_tls_extension_signature_algorithms_content(data))
        } else if t == 15 {
            value_of(spec_parse_tls_extension_heartbeat_content(data))
        } else if t == 16 {
            value_of(spec_parse_tls_extension_alpn_content(data))
        } else if t == 18 {
            value_of(spec_parse_tls_extension_signed_certificate_timestamp_content(data))
        } else if t == 21 {
            value_of(spec_parse_tls_extension_padding_content(data, n))
        } else if t == 22 {
            Ok(SpecTlsExtension::EncryptThenMac)
        } else if t == 23 {
            Ok(SpecTlsExtension::ExtendedMasterSecret)
        } else if t == 27 {
            value_of(spec_parse_tls_extension_compress_certificate_content(data, n))
        } else if t == 28 {
            value_of(spec_parse_tls_extension_record_size_limit(data))
        } else if t == 35 {
            value_of(spec_parse_tls_extension_session_ticket_content(data, n))
        } else if t == 41 {
            value_of(spec_parse_tls_extension_pre_shared_key_content(data, n))
        } else if t == 42 {
            value_of(spec_parse_tls_extension_early_data_content(data, n))
        } else if t == 43 {
            value_of(spec_parse_tls_extension_supported_versions_content(data, n))
        } else if t == 44 {
            value_of(spec_parse_tls_extension_cookie_content(data, n))
        } else if t == 45 {
            value_of(spec_parse_tls_extension_psk_key_exchange_modes_content(data))
        } else if t == 48 {
            value_of(spec_parse_tls_extension_oid_filters(data))
        } else if t == 49 {
            Ok(SpecTlsExtension::PostHandshakeAuth)
        } else if t == 51 {
            value_of(spec_parse_tls_extension_client_shares_content(data))
        } else if t == 57 {
            value_of(spec_parse_tls_extension_quic_transport_parameters(data, n))
        } else if t == 13172 {
            Ok(SpecTlsExtension::NextProtocolNegotiation)
        } else if t == 0xff01 {
            value_of(spec_parse_tls_extension_renegotiation_info_content(data))
        } else if t == 0xfe0d {
            value_of(spec_parse_tls_extension_encrypted_client_hello(data))
        } else if t == 0xffce {
            value_of(spec_parse_tls_extension_encrypted_server_name(data))
        } else {
            unknown
        },
        Context::ServerHello => if t == 0 {
            value_of(spec_parse_tls_extension_sni_content(data))
        } else if t == 1 {
            value_of(spec_parse_tls_extension_max_fragment_length_content(data))
        } else if t == 5 {
            value_of(spec_parse_tls_extension_status_request_content(data, n))
        } else if t == 11 {
            value_of(spec_parse_tls_extension_ec_point_formats_content(data))
        } else if t == 13 {
            value_of(spec_parse_tls_extension_signature_algorithms_content(data))
        } else if t == 15 {
            value_of(spec_parse_tls_extension_heartbeat_content(data))
        } else if t == 16 {
            value_of(spec_parse_tls_extension_alpn_content(data))
        } else if t == 18 {
            value_of(spec_parse_tls_extension_signed_certificate_timestamp_content(data))
        } else if t == 21 {
            value_of(spec_parse_tls_extension_padding_content(data, n))
        } else if t == 22 {
            Ok(SpecTlsExtension::EncryptThenMac)
        } else if t == 23 {
            Ok(SpecTlsExtension::ExtendedMasterSecret)
        } else if t == 27 {
            value_of(spec_parse_tls_extension_compress_certificate_content(data, n))
        } else if t == 28 {
            value_of(spec_parse_tls_extension_record_size_limit(data))
        } else if t == 35 {
            value_of(spec_parse_tls_extension_session_ticket_content(data, n))
        } else if t == 41 {
            value_of(spec_parse_tls_extension_pre_shared_key_content(data, n))
        } else if t == 42 {
            value_of(spec_parse_tls_extension_early_data_content(data, n))
        } else if t == 43 {
            value_of(spec_parse_tls_extension_supported_versions_content(data, n))
        } else if t == 44 {
            value_of(spec_parse_tls_extension_cookie_content(data, n))
        } else if t == 51 {
            value_of(spec_parse_tls_extension_server_share_content(data))
        } else if t == 13172 {
            Ok(SpecTlsExtension::NextProtocolNegotiation)
        } else if t == 0xff01 {
            value_of(spec_parse_tls_extension_renegotiation_info_content(data))
        } else {
            unknown
        },
        Context::Any => if t == 0 {
            value_of(spec_parse_tls_extension_sni_content(data))
        } else if t == 1 {
            value_of(spec_parse_tls_extension_max_fragment_length_content(data))
        } else if t == 5 {
            value_of(spec_parse_tls_extension_status_request_content(data, n))
        } else if t == 10 {
            value_of(spec_parse_tls_extension_supported_groups_content(data))
        } else if t == 11 {
            value_of(spec_parse_tls_extension_ec_point_formats_content(data))
        } else if t == 13 {
            value_of(spec_parse_tls_extension_signature_algorithms_content(data))
        } else if t == 15 {
            value_of(spec_parse_tls_extension_heartbeat_content(data))
        } else if t == 16 {
            value_of(spec_parse_tls_extension_alpn_content(data))
        } else if t == 18 {
            value_of(spec_parse_tls_extension_signed_certificate_timestamp_content(data))
        } else if t == 21 {
            value_of(spec_parse_tls_extension_padding_content(data, n))
        } else if t == 22 {
            Ok(SpecTlsExtension::EncryptThenMac)
        } else if t == 23 {
            Ok(SpecTlsExtension::ExtendedMasterSecret)
        } else if t == 27 {
            value_of(spec_parse_tls_extension_compress_certificate_content(data, n))
        } else if t == 28 {
            value_of(spec_parse_tls_extension_record_size_limit(data))
        } else if t == 35 {
            value_of(spec_parse_tls_extension_session_ticket_content(data, n))
        } else if t == 40 {
            value_of(spec_parse_tls_extension_key_share_old_content(data, n))
        } else if t == 41 {
            value_of(spec_parse_tls_extension_pre_shared_key_content(data, n))
        } else if t == 42 {
            value_of(spec_parse_tls_extension_early_data_content(data, n))
        } else if t == 43 {
            value_of(spec_parse_tls_extension_supported_versions_content(data, n))
        } else if t == 44 {
            value_of(spec_parse_tls_extension_cookie_content(data, n))
        } else if t == 45 {
            value_of(spec_parse_tls_extension_psk_key_exchange_modes_content(data))
        } else if t == 48 {
            value_of(spec_parse_tls_extension_oid_filters(data))
        } else if t == 49 {
            Ok(SpecTlsExtension::PostHandshakeAuth)
        } else if t == 51 {
            value_of(spec_parse_tls_extension_key_share_old_content(data, n))
        } else if t == 13172 {
            Ok(SpecTlsExtension::NextProtocolNegotiation)
        } else if t == 0xff01 {
            value_of(spec_parse_tls_extension_renegotiation_info_content(data))
        } else if t == 0xffce {
            value_of(spec_parse_tls_extension_encrypted_server_name(data))
        } else {
            unknown
        },
    }
}

/// The types that the table of `ctx` reads; any other type is kept
/// unparsed.
pub open spec fn listed_type(ctx: Context, t: u16) -> bool {
    match ctx {
        Context::ClientHello => t == 0 || t == 1 || t == 5 || t == 10 || t == 11 || t == 13 || t
            == 15 || t == 16 || t == 18 || t == 21 || t == 22 || t == 23 || t == 27 || t == 28
            || t == 35 || t == 41 || t == 42 || t == 43 || t == 44 || t == 45 || t == 48 || t
            == 49 || t == 51 || t == 57 || t == 13172 || t == 0xff01 || t == 0xfe0d || t
            == 0xffce,
        Context::ServerHello => t == 0 || t == 1 || t == 5 || t == 11 || t == 13 || t == 15 || t
            == 16 || t == 18 || t == 21 || t == 22 || t == 23 || t == 27 || t == 28 || t == 35 || t == 41
            || t == 42 || t == 43 || t == 44 || t == 51 || t == 13172 || t == 0xff01,
        Context::Any => t == 0 || t == 1 || t == 5 || t == 10 || t == 11 || t == 13 || t == 15
            || t == 16 || t == 18 || t == 21 || t == 22 || t == 23 || t == 27 || t == 28 || t
            == 35 || t == 40 || t == 41 || t == 42 || t == 43 || t == 44 || t == 45 || t == 48
            || t == 49 || t == 51 || t == 13172 || t == 0xff01 || t == 0xffce,
    }
}

/// One extension: a two-byte type and data with a two-byte length. GREASE
/// types give the raw data; other types are read by the table of `ctx`,
/// whose parser must succeed on the data but need not read all of it. The
/// rest is what follows the data.
pub open spec fn spec_extension(ctx: Context, s: Seq<u8>) -> SpecResult<SpecTlsExtension> {
    match spec_be_u16(s) {
        Err(e) => Err(e),
        Ok((r, t)) => match spec_length_data_u16(r) {
            Err(e) => Err(e),
            Ok((rest, data)) => if is_grease(t) {
                Ok((rest, SpecTlsExtension::Grease(t, data)))
            } else {
                match spec_extension_content(ctx, t, data) {
                    Err(e) => Err(e),
                    Ok(ext) => Ok((rest, ext)),
                }
            },
        },
    }
}

/// The extension parser of `ctx` as a value.
pub open spec fn extension_fn(ctx: Context) -> spec_fn(Seq<u8>) -> SpecResult<SpecTlsExtension> {
    |x: Seq<u8>| spec_extension(ctx, x)
}

/// Extensions one after another, as many as parse.
pub open spec fn spec_extensions(ctx: Context, s: Seq<u8>) -> SpecResult<Seq<SpecTlsExtension>> {
    spec_many0_complete(extension_fn(ctx), s)
}

} // verus!
