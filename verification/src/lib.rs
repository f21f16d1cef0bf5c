//! Parsers for TLS extensions (RFC 4492, 6066, 7366, 7627, 8446 and
//! related drafts), written as functions on bytes and verified against a
//! specification of the wire format.

pub mod error;
pub mod combinator;
pub mod tls_common;
pub mod tls_extensions;
pub mod grammar;
pub mod parsers;
pub mod laws;
pub mod names;

pub use crate::error::{ErrorKind, IResult, ParseError};
pub use crate::tls_common::{
    NamedGroup, SignatureScheme, TlsCipherSuiteID, TlsVersion, parse_named_groups, parse_tls_versions,
};
pub use crate::tls_extensions::{
    CertificateStatusType, KeyShareEntry, OidFilter, PskKeyExchangeMode, QuicTransportParameter,
    SNIType, TlsExtension, TlsExtensionType,
};
pub use crate::parsers::{
    parse_tls_extension_sni_hostname,
    parse_tls_extension_sni_content,
    parse_tls_extension_sni,
    parse_tls_extension_max_fragment_length_content,
    parse_tls_extension_max_fragment_length,
    parse_tls_extension_status_request,
    parse_tls_extension_supported_groups_content,
    parse_tls_extension_supported_groups,
    parse_tls_extension_ec_point_formats_content,
    parse_tls_extension_ec_point_formats,
    parse_tls_extension_signature_algorithms_content,
    parse_tls_extension_signature_algorithms,
    parse_tls_extension_heartbeat_content,
    parse_tls_extension_heartbeat,
    parse_tls_extension_alpn_content,
    parse_tls_extension_signed_certificate_timestamp_content,
    parse_tls_extension_encrypt_then_mac,
    parse_tls_extension_extended_master_secret,
    parse_tls_extension_session_ticket,
    parse_tls_extension_key_share,
    parse_tls_extension_pre_shared_key,
    parse_tls_extension_compress_certificate,
    parse_tls_extension_early_data,
    parse_tls_extension_supported_versions,
    parse_tls_extension_cookie,
    parse_tls_extension_psk_key_exchange_modes_content,
    parse_tls_extension_psk_key_exchange_modes,
    parse_tls_extension_renegotiation_info_content,
    parse_tls_extension_encrypted_client_hello,
    parse_tls_extension_encrypted_server_name,
    parse_tls_extension_unknown,
    parse_tls_client_hello_extension,
    parse_tls_server_hello_extension,
    parse_tls_extension,
    parse_tls_client_hello_extensions,
    parse_tls_server_hello_extensions,
    parse_tls_extensions,
};
pub mod decoding;
