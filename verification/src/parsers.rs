//! Parsers of single TLS extensions and of their contents.
use vstd::prelude::*;
use crate::error::{ErrorKind, ParseError, SpecParseError, IResult, res_view, res_vec_view, vec_view};
use crate::combinator::{
    be_u8, be_u16, be_u32, take, length_data_u8, length_data_u16, tag, many0_complete,
};
use crate::tls_common::{
    NamedGroup, SignatureScheme, TlsCipherSuiteID, TlsVersion, parse_named_groups,
    parse_tls_versions,
};
use crate::tls_extensions::{
    CertificateStatusType, KeyShareEntry, OidFilter, SNIType, SpecTlsExtension, TlsExtension,
    TlsExtensionType,
};
use crate::grammar::{
    Context,
    extension_fn,
    keyshare_entry_fn,
    oid_filter_fn,
    protocol_name_fn,
    signature_scheme_fn,
    sni_hostname_fn,
    spec_extension,
    spec_extensions,
    spec_parse_keyshare_entry,
    spec_parse_protocol_name,
    spec_parse_tls_extension_alpn_content,
    spec_parse_tls_extension_client_shares_content,
    spec_parse_tls_extension_compress_certificate,
    spec_parse_tls_extension_compress_certificate_content,
    spec_parse_tls_extension_cookie,
    spec_parse_tls_extension_cookie_content,
    spec_parse_tls_extension_early_data,
    spec_parse_tls_extension_early_data_content,
    spec_parse_tls_extension_ec_point_formats,
    spec_parse_tls_extension_ec_point_formats_content,
    spec_parse_tls_extension_encrypt_then_mac,
    spec_parse_tls_extension_encrypted_client_hello,
    spec_parse_tls_extension_encrypted_server_name,
    spec_parse_tls_extension_extended_master_secret,
    spec_parse_tls_extension_heartbeat,
    spec_parse_tls_extension_heartbeat_content,
    spec_parse_tls_extension_key_share,
    spec_parse_tls_extension_key_share_old_content,
    spec_parse_tls_extension_max_fragment_length,
    spec_parse_tls_extension_max_fragment_length_content,
    spec_parse_tls_extension_oid_filters,
    spec_parse_tls_extension_padding_content,
    spec_parse_tls_extension_pre_shared_key,
    spec_parse_tls_extension_pre_shared_key_content,
    spec_parse_tls_extension_psk_key_exchange_modes,
    spec_parse_tls_extension_psk_key_exchange_modes_content,
    spec_parse_tls_extension_quic_transport_parameters,
    spec_parse_tls_extension_record_size_limit,
    spec_parse_tls_extension_renegotiation_info_content,
    spec_parse_tls_extension_server_share_content,
    spec_parse_tls_extension_session_ticket,
    spec_parse_tls_extension_session_ticket_content,
    spec_parse_tls_extension_signature_algorithms,
    spec_parse_tls_extension_signature_algorithms_content,
    spec_parse_tls_extension_signed_certificate_timestamp_content,
    spec_parse_tls_extension_sni,
    spec_parse_tls_extension_sni_content,
    spec_parse_tls_extension_sni_hostname,
    spec_parse_tls_extension_status_request,
    spec_parse_tls_extension_status_request_content,
    spec_parse_tls_extension_supported_groups,
    spec_parse_tls_extension_supported_groups_content,
    spec_parse_tls_extension_supported_versions,
    spec_parse_tls_extension_supported_versions_content,
    spec_parse_tls_extension_unknown,
    spec_parse_tls_oid_filter,
};

verus! {

/// Parses one server name: a name type and a name.
pub fn parse_tls_extension_sni_hostname<'a>(i: &'a [u8]) -> (res: IResult<'a, (SNIType, &'a [u8])>)
    ensures
        res_view(res) == spec_parse_tls_extension_sni_hostname(i@),
{
    let (i, t) = be_u8(i)?;
    let (i, v) = length_data_u16(i)?;
    Ok((i, (SNIType(t), v)))
}

/// Parses the content of a server name extension.
pub fn parse_tls_extension_sni_content<'a>(i: &'a [u8]) -> (res: IResult<'a, TlsExtension<'a>>)
    ensures
        res_view(res) == spec_parse_tls_extension_sni_content(i@),
{
    if i.len() == 0 {
        let v: Vec<(SNIType, &'a [u8])> = Vec::new();
        assert(vec_view(v) =~= Seq::empty());
        return Ok((i, TlsExtension::SNI(v)));
    }
    let (i, list_len) = be_u16(i)?;
    let (i, d) = take(i, list_len as usize)?;
    let (_, v) = many0_complete(parse_tls_extension_sni_hostname, Ghost(sni_hostname_fn()), d)?;
    Ok((i, TlsExtension::SNI(v)))
}

/// Parses a server name extension, type 0.
pub fn parse_tls_extension_sni<'a>(i: &'a [u8]) -> (res: IResult<'a, TlsExtension<'a>>)
    ensures
        res_view(res) == spec_parse_tls_extension_sni(i@),
{
    let (i, _) = tag(i, 0x00, 0x00)?;
    let (i, n) = be_u16(i)?;
    let (i, d) = take(i, n as usize)?;
    let (_, ext) = parse_tls_extension_sni_content(d)?;
    Ok((i, ext))
}

/// Parses the content of a max fragment length extension, RFC 6066.
pub fn parse_tls_extension_max_fragment_length_content<'a>(i: &'a [u8]) -> (res: IResult<
    'a,
    TlsExtension<'a>,
>)
    ensures
        res_view(res) == spec_parse_tls_extension_max_fragment_length_content(i@),
{
    let (i, x) = be_u8(i)?;
    Ok((i, TlsExtension::MaxFragmentLength(x)))
}

/// Parses a max fragment length extension, type 1, RFC 6066.
pub fn parse_tls_extension_max_fragment_length<'a>(i: &'a [u8]) -> (res: IResult<
    'a,
    TlsExtension<'a>,
>)
    ensures
        res_view(res) == spec_parse_tls_extension_max_fragment_length(i@),
{
    let (i, _) = tag(i, 0x00, 0x01)?;
    let (i, n) = be_u16(i)?;
    let (i, d) = take(i, n as usize)?;
    let (_, ext) = parse_tls_extension_max_fragment_length_content(d)?;
    Ok((i, ext))
}

/// Parses the content of a certificate status request, RFC 6066.
fn parse_tls_extension_status_request_content<'a>(i: &'a [u8], ext_len: u16) -> (res: IResult<
    'a,
    TlsExtension<'a>,
>)
    ensures
        res_view(res) == spec_parse_tls_extension_status_request_content(i@, ext_len),
{
    if ext_len == 0 {
        return Ok((i, TlsExtension::StatusRequest(None)));
    }
    let (i, status_type) = be_u8(i)?;
    let (i, request) = take(i, (ext_len - 1) as usize)?;
    Ok((i, TlsExtension::StatusRequest(Some((CertificateStatusType(status_type), request)))))
}

/// Parses a certificate status request extension, type 5, RFC 6066.
pub fn parse_tls_extension_status_request<'a>(i: &'a [u8]) -> (res: IResult<'a, TlsExtension<'a>>)
    ensures
        res_view(res) == spec_parse_tls_extension_status_request(i@),
{
    let (i, _) = tag(i, 0x00, 0x05)?;
    let (i, ext_len) = be_u16(i)?;
    let (i, d) = take(i, ext_len as usize)?;
    let (_, ext) = parse_tls_extension_status_request_content(d, ext_len)?;
    Ok((i, ext))
}

/// Parses the content of a supported groups extension, RFC 8422 / RFC 7919.
pub fn parse_tls_extension_supported_groups_content<'a>(i: &'a [u8]) -> (res: IResult<
    'a,
    TlsExtension<'a>,
>)
    ensures
        res_view(res) == spec_parse_tls_extension_supported_groups_content(i@),
{
    let (i, d) = length_data_u16(i)?;
    let (_, v) = parse_named_groups(d)?;
    Ok((i, TlsExtension::SupportedGroups(v)))
}

/// Parses a supported groups extension, type 10.
pub fn parse_tls_extension_supported_groups<'a>(i: &'a [u8]) -> (res: IResult<'a, TlsExtension<'a>>)
    ensures
        res_view(res) == spec_parse_tls_extension_supported_groups(i@),
{
    let (i, _) = tag(i, 0x00, 0x0a)?;
    let (i, n) = be_u16(i)?;
    let (i, d) = take(i, n as usize)?;
    let (_, ext) = parse_tls_extension_supported_groups_content(d)?;
    Ok((i, ext))
}

/// Parses the content of an EC point formats extension, RFC 4492.
pub fn parse_tls_extension_ec_point_formats_content<'a>(i: &'a [u8]) -> (res: IResult<
    'a,
    TlsExtension<'a>,
>)
    ensures
        res_view(res) == spec_parse_tls_extension_ec_point_formats_content(i@),
{
    let (i, v) = length_data_u8(i)?;
    Ok((i, TlsExtension::EcPointFormats(v)))
}

/// Parses an EC point formats extension, type 11, RFC 4492.
pub fn parse_tls_extension_ec_point_formats<'a>(i: &'a [u8]) -> (res: IResult<'a, TlsExtension<'a>>)
    ensures
        res_view(res) == spec_parse_tls_extension_ec_point_formats(i@),
{
    let (i, _) = tag(i, 0x00, 0x0b)?;
    let (i, n) = be_u16(i)?;
    let (i, d) = take(i, n as usize)?;
    let (_, ext) = parse_tls_extension_ec_point_formats_content(d)?;
    Ok((i, ext))
}

/// Parses the content of a signature algorithms extension (RFC 8446, and the
/// earlier form of TLS 1.2).
pub fn parse_tls_extension_signature_algorithms_content<'a>(i: &'a [u8]) -> (res: IResult<
    'a,
    TlsExtension<'a>,
>)
    ensures
        res_view(res) == spec_parse_tls_extension_signature_algorithms_content(i@),
{
    let (i, d) = length_data_u16(i)?;
    let (_, l) = many0_complete(SignatureScheme::parse, Ghost(signature_scheme_fn()), d)?;
    assert(vec_view(l) =~= l@);
    Ok((i, TlsExtension::SignatureAlgorithms(l)))
}

/// Parses a signature algorithms extension, type 13.
pub fn parse_tls_extension_signature_algorithms<'a>(i: &'a [u8]) -> (res: IResult<
    'a,
    TlsExtension<'a>,
>)
    ensures
        res_view(res) == spec_parse_tls_extension_signature_algorithms(i@),
{
    let (i, _) = tag(i, 0x00, 13)?;
    let (i, n) = be_u16(i)?;
    let (i, d) = take(i, n as usize)?;
    let (_, ext) = parse_tls_extension_signature_algorithms_content(d)?;
    Ok((i, ext))
}

/// Parses the content of a heartbeat extension, RFC 6520.
pub fn parse_tls_extension_heartbeat_content<'a>(i: &'a [u8]) -> (res: IResult<'a, TlsExtension<'a>>)
    ensures
        res_view(res) == spec_parse_tls_extension_heartbeat_content(i@),
{
    let (i, x) = be_u8(i)?;
    Ok((i, TlsExtension::Heartbeat(x)))
}

/// Parses a heartbeat extension, type 15, RFC 6520; its length must be 1.
pub fn parse_tls_extension_heartbeat<'a>(i: &'a [u8]) -> (res: IResult<'a, TlsExtension<'a>>)
    ensures
        res_view(res) == spec_parse_tls_extension_heartbeat(i@),
{
    let (i, _) = tag(i, 0x00, 0x0f)?;
    let len_start = i;
    let (i, ext_len) = be_u16(i)?;
    if ext_len != 1 {
        return Err(ParseError::Error { input: len_start, code: ErrorKind::Verify });
    }
    let (i, d) = take(i, ext_len as usize)?;
    let (_, ext) = parse_tls_extension_heartbeat_content(d)?;
    Ok((i, ext))
}

/// Parses one protocol name with a one-byte length.
fn parse_protocol_name<'a>(i: &'a [u8]) -> (res: IResult<'a, &'a [u8]>)
    ensures
        res_view(res) == spec_parse_protocol_name(i@),
{
    length_data_u8(i)
}

/// Parses the content of an application layer protocol negotiation
/// extension, RFC 7301.
pub fn parse_tls_extension_alpn_content<'a>(i: &'a [u8]) -> (res: IResult<'a, TlsExtension<'a>>)
    ensures
        res_view(res) == spec_parse_tls_extension_alpn_content(i@),
{
    let (i, d) = length_data_u16(i)?;
    let (_, v) = many0_complete(parse_protocol_name, Ghost(protocol_name_fn()), d)?;
    Ok((i, TlsExtension::ALPN(v)))
}

/// Parses the content of a padding extension, RFC 7685.
fn parse_tls_extension_padding_content<'a>(i: &'a [u8], ext_len: u16) -> (res: IResult<
    'a,
    TlsExtension<'a>,
>)
    ensures
        res_view(res) == spec_parse_tls_extension_padding_content(i@, ext_len),
{
    let (i, v) = take(i, ext_len as usize)?;
    Ok((i, TlsExtension::Padding(v)))
}

/// Parses the content of a signed certificate timestamp extension,
/// RFC 6962.
pub fn parse_tls_extension_signed_certificate_timestamp_content<'a>(i: &'a [u8]) -> (res: IResult<
    'a,
    TlsExtension<'a>,
>)
    ensures
        res_view(res) == spec_parse_tls_extension_signed_certificate_timestamp_content(i@),
{
    match length_data_u16(i) {
        Ok((r, v)) => Ok((r, TlsExtension::SignedCertificateTimestamp(Some(v)))),
        Err(_) => Ok((i, TlsExtension::SignedCertificateTimestamp(None))),
    }
}

/// The content of an encrypt-then-MAC extension (RFC 7366) is not read.
fn parse_tls_extension_encrypt_then_mac_content<'a>(i: &'a [u8], _ext_len: u16) -> (res: IResult<
    'a,
    TlsExtension<'a>,
>)
    ensures
        res_view(res) == Ok::<_, SpecParseError>((i@, SpecTlsExtension::EncryptThenMac)),
{
    Ok((i, TlsExtension::EncryptThenMac))
}

/// Parses an encrypt-then-MAC extension, type 22, RFC 7366.
pub fn parse_tls_extension_encrypt_then_mac<'a>(i: &'a [u8]) -> (res: IResult<'a, TlsExtension<'a>>)
    ensures
        res_view(res) == spec_parse_tls_extension_encrypt_then_mac(i@),
{
    let (i, _) = tag(i, 0x00, 0x16)?;
    let (i, ext_len) = be_u16(i)?;
    let (i, d) = take(i, ext_len as usize)?;
    let (_, ext) = parse_tls_extension_encrypt_then_mac_content(d, ext_len)?;
    Ok((i, ext))
}

/// The content of an extended master secret extension (RFC 7627) is not
/// read.
fn parse_tls_extension_extended_master_secret_content<'a>(
    i: &'a [u8],
    _ext_len: u16,
) -> (res: IResult<'a, TlsExtension<'a>>)
    ensures
        res_view(res) == Ok::<_, SpecParseError>((i@, SpecTlsExtension::ExtendedMasterSecret)),
{
    Ok((i, TlsExtension::ExtendedMasterSecret))
}

/// Parses an extended master secret extension, type 23, RFC 7627.
pub fn parse_tls_extension_extended_master_secret<'a>(i: &'a [u8]) -> (res: IResult<
    'a,
    TlsExtension<'a>,
>)
    ensures
        res_view(res) == spec_parse_tls_extension_extended_master_secret(i@),
{
    let (i, _) = tag(i, 0x00, 0x17)?;
    let (i, ext_len) = be_u16(i)?;
    let (i, d) = take(i, ext_len as usize)?;
    let (_, ext) = parse_tls_extension_extended_master_secret_content(d, ext_len)?;
    Ok((i, ext))
}

/// Parses the content of a record size limit extension, RFC 8449.
fn parse_tls_extension_record_size_limit<'a>(i: &'a [u8]) -> (res: IResult<'a, TlsExtension<'a>>)
    ensures
        res_view(res) == spec_parse_tls_extension_record_size_limit(i@),
{
    let (i, x) = be_u16(i)?;
    Ok((i, TlsExtension::RecordSizeLimit(x)))
}

/// Parses the content of a session ticket extension: `ext_len` bytes.
fn parse_tls_extension_session_ticket_content<'a>(i: &'a [u8], ext_len: u16) -> (res: IResult<
    'a,
    TlsExtension<'a>,
>)
    ensures
        res_view(res) == spec_parse_tls_extension_session_ticket_content(i@, ext_len),
{
    let (i, v) = take(i, ext_len as usize)?;
    Ok((i, TlsExtension::SessionTicket(v)))
}

/// Parses a session ticket extension, type 35.
pub fn parse_tls_extension_session_ticket<'a>(i: &'a [u8]) -> (res: IResult<'a, TlsExtension<'a>>)
    ensures
        res_view(res) == spec_parse_tls_extension_session_ticket(i@),
{
    let (i, _) = tag(i, 0x00, 0x23)?;
    let (i, ext_len) = be_u16(i)?;
    let (i, d) = take(i, ext_len as usize)?;
    let (_, ext) = parse_tls_extension_session_ticket_content(d, ext_len)?;
    Ok((i, ext))
}

/// Parses the content of a key share extension as `ext_len` raw bytes.
fn parse_tls_extension_key_share_old_content<'a>(i: &'a [u8], ext_len: u16) -> (res: IResult<
    'a,
    TlsExtension<'a>,
>)
    ensures
        res_view(res) == spec_parse_tls_extension_key_share_old_content(i@, ext_len),
{
    let (i, v) = take(i, ext_len as usize)?;
    Ok((i, TlsExtension::KeyShareOld(v)))
}

/// Parses one key share entry.
fn parse_keyshare_entry<'a>(i: &'a [u8]) -> (res: IResult<'a, KeyShareEntry<'a>>)
    ensures
        res_view(res) == spec_parse_keyshare_entry(i@),
{
    KeyShareEntry::parse(i)
}

/// Parses a client's key shares, RFC 8446.
fn parse_tls_extension_client_shares_content<'a>(i: &'a [u8], _ext_len: u16) -> (res: IResult<
    'a,
    TlsExtension<'a>,
>)
    ensures
        res_view(res) == spec_parse_tls_extension_client_shares_content(i@),
{
    let (i, d) = length_data_u16(i)?;
    let (_, v) = many0_complete(parse_keyshare_entry, Ghost(keyshare_entry_fn()), d)?;
    Ok((i, TlsExtension::KeyShare(v)))
}

/// Parses a server's key share, RFC 8446.
fn parse_tls_extension_server_share_content<'a>(i: &'a [u8], _ext_len: u16) -> (res: IResult<
    'a,
    TlsExtension<'a>,
>)
    ensures
        res_view(res) == spec_parse_tls_extension_server_share_content(i@),
{
    let (i, t) = parse_keyshare_entry(i)?;
    let v = vec![t];
    assert(vec_view(v) =~= seq![t@]);
    Ok((i, TlsExtension::KeyShare(v)))
}

/// Parses a key share extension, type 51, keeping its content as raw bytes.
pub fn parse_tls_extension_key_share<'a>(i: &'a [u8]) -> (res: IResult<'a, TlsExtension<'a>>)
    ensures
        res_view(res) == spec_parse_tls_extension_key_share(i@),
{
    let (i, _) = tag(i, 0x00, 0x33)?;
    let (i, ext_len) = be_u16(i)?;
    let (i, d) = take(i, ext_len as usize)?;
    let (_, ext) = parse_tls_extension_key_share_old_content(d, ext_len)?;
    Ok((i, ext))
}

/// Parses the content of a pre-shared key extension: `ext_len` bytes.
fn parse_tls_extension_pre_shared_key_content<'a>(i: &'a [u8], ext_len: u16) -> (res: IResult<
    'a,
    TlsExtension<'a>,
>)
    ensures
        res_view(res) == spec_parse_tls_extension_pre_shared_key_content(i@, ext_len),
{
    let (i, v) = take(i, ext_len as usize)?;
    Ok((i, TlsExtension::PreSharedKey(v)))
}

/// Parses a pre-shared key extension, type 41, RFC 8446.
pub fn parse_tls_extension_pre_shared_key<'a>(i: &'a [u8]) -> (res: IResult<'a, TlsExtension<'a>>)
    ensures
        res_view(res) == spec_parse_tls_extension_pre_shared_key(i@),
{
    let (i, _) = tag(i, 0x00, 0x29)?;
    let (i, ext_len) = be_u16(i)?;
    let (i, d) = take(i, ext_len as usize)?;
    let (_, ext) = parse_tls_extension_pre_shared_key_content(d, ext_len)?;
    Ok((i, ext))
}

/// Parses the content of a compress certificate extension: `ext_len` bytes.
fn parse_tls_extension_compress_certificate_content<'a>(i: &'a [u8], ext_len: u16) -> (res: IResult<
    'a,
    TlsExtension<'a>,
>)
    ensures
        res_view(res) == spec_parse_tls_extension_compress_certificate_content(i@, ext_len),
{
    let (i, v) = take(i, ext_len as usize)?;
    Ok((i, TlsExtension::CompressCertificate(v)))
}

/// Parses a compress certificate extension, type 27, RFC 8879.
pub fn parse_tls_extension_compress_certificate<'a>(i: &'a [u8]) -> (res: IResult<
    'a,
    TlsExtension<'a>,
>)
    ensures
        res_view(res) == spec_parse_tls_extension_compress_certificate(i@),
{
    let (i, _) = tag(i, 0x00, 0x1b)?;
    let (i, ext_len) = be_u16(i)?;
    let (i, d) = take(i, ext_len as usize)?;
    let (_, ext) = parse_tls_extension_compress_certificate_content(d, ext_len)?;
    Ok((i, ext))
}

/// Parses the content of an early data extension, RFC 8446.
fn parse_tls_extension_early_data_content<'a>(i: &'a [u8], ext_len: u16) -> (res: IResult<
    'a,
    TlsExtension<'a>,
>)
    ensures
        res_view(res) == spec_parse_tls_extension_early_data_content(i@, ext_len),
{
    if ext_len > 0 {
        let (i, x) = be_u32(i)?;
        Ok((i, TlsExtension::EarlyData(Some(x))))
    } else {
        Ok((i, TlsExtension::EarlyData(None)))
    }
}

/// Parses an early data extension, type 42, RFC 8446.
pub fn parse_tls_extension_early_data<'a>(i: &'a [u8]) -> (res: IResult<'a, TlsExtension<'a>>)
    ensures
        res_view(res) == spec_parse_tls_extension_early_data(i@),
{
    let (i, _) = tag(i, 0x00, 0x2a)?;
    let (i, ext_len) = be_u16(i)?;
    let (i, d) = take(i, ext_len as usize)?;
    let (_, ext) = parse_tls_extension_early_data_content(d, ext_len)?;
    Ok((i, ext))
}

/// Parses the content of a supported versions extension, RFC 8446: two
/// bytes are a server's selected version, anything else a client's list.
fn parse_tls_extension_supported_versions_content<'a>(i: &'a [u8], ext_len: u16) -> (res: IResult<
    'a,
    TlsExtension<'a>,
>)
    requires
        ext_len == 0 ==> i@.len() == 0,
    ensures
        res_view(res) == spec_parse_tls_extension_supported_versions_content(i@, ext_len),
{
    if ext_len == 2 {
        let (i, x) = be_u16(i)?;
        let v = vec![TlsVersion(x)];
        assert(v@ =~= seq![TlsVersion(x)]);
        Ok((i, TlsExtension::SupportedVersions(v)))
    } else {
        let (i, _) = be_u8(i)?;
        let (i, d) = take(i, (ext_len - 1) as usize)?;
        let (_, l) = parse_tls_versions(d)?;
        Ok((i, TlsExtension::SupportedVersions(l)))
    }
}

/// Parses a supported versions extension, type 43, RFC 8446.
pub fn parse_tls_extension_supported_versions<'a>(i: &'a [u8]) -> (res: IResult<
    'a,
    TlsExtension<'a>,
>)
    ensures
        res_view(res) == spec_parse_tls_extension_supported_versions(i@),
{
    let (i, _) = tag(i, 0x00, 0x2b)?;
    let (i, ext_len) = be_u16(i)?;
    let (i, d) = take(i, ext_len as usize)?;
    let (_, ext) = parse_tls_extension_supported_versions_content(d, ext_len)?;
    Ok((i, ext))
}

/// Parses the content of a cookie extension: `ext_len` bytes.
fn parse_tls_extension_cookie_content<'a>(i: &'a [u8], ext_len: u16) -> (res: IResult<
    'a,
    TlsExtension<'a>,
>)
    ensures
        res_view(res) == spec_parse_tls_extension_cookie_content(i@, ext_len),
{
    let (i, v) = take(i, ext_len as usize)?;
    Ok((i, TlsExtension::Cookie(v)))
}

/// Parses a cookie extension, type 44, RFC 8446.
pub fn parse_tls_extension_cookie<'a>(i: &'a [u8]) -> (res: IResult<'a, TlsExtension<'a>>)
    ensures
        res_view(res) == spec_parse_tls_extension_cookie(i@),
{
    let (i, _) = tag(i, 0x00, 0x2c)?;
    let (i, ext_len) = be_u16(i)?;
    let (i, d) = take(i, ext_len as usize)?;
    let (_, ext) = parse_tls_extension_cookie_content(d, ext_len)?;
    Ok((i, ext))
}

/// Parses the content of a PSK key exchange modes extension, RFC 8446.
pub fn parse_tls_extension_psk_key_exchange_modes_content<'a>(i: &'a [u8]) -> (res: IResult<
    'a,
    TlsExtension<'a>,
>)
    ensures
        res_view(res) == spec_parse_tls_extension_psk_key_exchange_modes_content(i@),
{
    let (i, v) = length_data_u8(i)?;
    Ok((i, TlsExtension::PskExchangeModes(vstd::slice::slice_to_vec(v))))
}

/// Parses a PSK key exchange modes extension, type 45, RFC 8446.
pub fn parse_tls_extension_psk_key_exchange_modes<'a>(i: &'a [u8]) -> (res: IResult<
    'a,
    TlsExtension<'a>,
>)
    ensures
        res_view(res) == spec_parse_tls_extension_psk_key_exchange_modes(i@),
{
    let (i, _) = tag(i, 0x00, 0x2d)?;
    let (i, ext_len) = be_u16(i)?;
    let (i, d) = take(i, ext_len as usize)?;
    let (_, ext) = parse_tls_extension_psk_key_exchange_modes_content(d)?;
    Ok((i, ext))
}

/// The content of a next protocol negotiation extension
/// (draft-agl-tls-nextprotoneg-03) is not read.
fn parse_tls_extension_npn_content<'a>(i: &'a [u8], _ext_len: u16) -> (res: IResult<
    'a,
    TlsExtension<'a>,
>)
    ensures
        res_view(res) == Ok::<_, SpecParseError>((i@, SpecTlsExtension::NextProtocolNegotiation)),
{
    Ok((i, TlsExtension::NextProtocolNegotiation))
}

/// Parses the content of a renegotiation info extension, RFC 5746.
pub fn parse_tls_extension_renegotiation_info_content<'a>(i: &'a [u8]) -> (res: IResult<
    'a,
    TlsExtension<'a>,
>)
    ensures
        res_view(res) == spec_parse_tls_extension_renegotiation_info_content(i@),
{
    let (i, v) = length_data_u8(i)?;
    Ok((i, TlsExtension::RenegotiationInfo(v)))
}

/// Parses the content of an encrypted client hello extension
/// (draft-ietf-tls-esni).
pub fn parse_tls_extension_encrypted_client_hello<'a>(i: &'a [u8]) -> (res: IResult<
    'a,
    TlsExtension<'a>,
>)
    ensures
        res_view(res) == spec_parse_tls_extension_encrypted_client_hello(i@),
{
    let (i, ch_type) = be_u8(i)?;
    let (i, ciphersuite) = be_u32(i)?;
    let (i, config_id) = be_u8(i)?;
    let (i, enc) = length_data_u16(i)?;
    let (i, payload) = length_data_u16(i)?;
    let ech = TlsExtension::EncryptedClientHello { ch_type, ciphersuite, config_id, enc, payload };
    Ok((i, ech))
}

/// Parses the content of an encrypted server name extension
/// (draft-ietf-tls-esni).
pub fn parse_tls_extension_encrypted_server_name<'a>(i: &'a [u8]) -> (res: IResult<
    'a,
    TlsExtension<'a>,
>)
    ensures
        res_view(res) == spec_parse_tls_extension_encrypted_server_name(i@),
{
    let (i, cs) = be_u16(i)?;
    let ciphersuite = TlsCipherSuiteID(cs);
    let (i, group) = NamedGroup::parse(i)?;
    let (i, key_share) = length_data_u16(i)?;
    let (i, record_digest) = length_data_u16(i)?;
    let (i, encrypted_sni) = length_data_u16(i)?;
    let esn = TlsExtension::EncryptedServerName {
        ciphersuite,
        group,
        key_share,
        record_digest,
        encrypted_sni,
    };
    Ok((i, esn))
}

/// Parses one OID filter.
fn parse_tls_oid_filter<'a>(i: &'a [u8]) -> (res: IResult<'a, OidFilter<'a>>)
    ensures
        res_view(res) == spec_parse_tls_oid_filter(i@),
{
    let (i, cert_ext_oid) = length_data_u8(i)?;
    let (i, cert_ext_val) = length_data_u16(i)?;
    let filter = OidFilter { cert_ext_oid, cert_ext_val };
    Ok((i, filter))
}

/// Parses the content of an OID filters extension (TLS 1.3 draft 19).
fn parse_tls_extension_oid_filters<'a>(i: &'a [u8]) -> (res: IResult<'a, TlsExtension<'a>>)
    ensures
        res_view(res) == spec_parse_tls_extension_oid_filters(i@),
{
    let (i, d) = length_data_u16(i)?;
    let (_, v) = many0_complete(parse_tls_oid_filter, Ghost(oid_filter_fn()), d)?;
    Ok((i, TlsExtension::OidFilters(v)))
}

/// The content of a post-handshake authentication extension (TLS 1.3
/// draft 20) is not read.
fn parse_tls_extension_post_handshake_auth_content<'a>(
    i: &'a [u8],
    _ext_len: u16,
) -> (res: IResult<'a, TlsExtension<'a>>)
    ensures
        res_view(res) == Ok::<_, SpecParseError>((i@, SpecTlsExtension::PostHandshakeAuth)),
{
    Ok((i, TlsExtension::PostHandshakeAuth))
}

/// Parses the content of a QUIC transport parameters extension (RFC 9001)
/// as `ext_len` raw bytes.
fn parse_tls_extension_quic_transport_parameters<'a>(i: &'a [u8], ext_len: u16) -> (res: IResult<
    'a,
    TlsExtension<'a>,
>)
    ensures
        res_view(res) == spec_parse_tls_extension_quic_transport_parameters(i@, ext_len),
{
    let (i, v) = take(i, ext_len as usize)?;
    Ok((i, TlsExtension::QuicTransportParameters(v)))
}

/// Parses any extension as its type and raw data.
pub fn parse_tls_extension_unknown<'a>(i: &'a [u8]) -> (res: IResult<'a, TlsExtension<'a>>)
    ensures
        res_view(res) == spec_parse_tls_extension_unknown(i@),
{
    let (i, ext_type) = be_u16(i)?;
    let (i, ext_data) = length_data_u16(i)?;
    Ok((i, TlsExtension::Unknown(TlsExtensionType(ext_type), ext_data)))
}

/// Parses a single extension of a client hello.
pub fn parse_tls_client_hello_extension<'a>(i: &'a [u8]) -> (res: IResult<'a, TlsExtension<'a>>)
    ensures
        res_view(res) == spec_extension(Context::ClientHello, i@),
{
    let (i, ext_type) = be_u16(i)?;
    let (i, ext_data) = length_data_u16(i)?;
    if ext_type & 0x0f0f == 0x0a0a {
        return Ok((i, TlsExtension::Grease(ext_type, ext_data)));
    }
    let ext_len = ext_data.len() as u16;
    let r = match ext_type {
        0 => parse_tls_extension_sni_content(ext_data),
        1 => parse_tls_extension_max_fragment_length_content(ext_data),
        5 => parse_tls_extension_status_request_content(ext_data, ext_len),
        10 => parse_tls_extension_supported_groups_content(ext_data),
        11 => parse_tls_extension_ec_point_formats_content(ext_data),
        13 => parse_tls_extension_signature_algorithms_content(ext_data),
        15 => parse_tls_extension_heartbeat_content(ext_data),
        16 => parse_tls_extension_alpn_content(ext_data),
        18 => parse_tls_extension_signed_certificate_timestamp_content(ext_data),
        21 => parse_tls_extension_padding_content(ext_data, ext_len),
        22 => parse_tls_extension_encrypt_then_mac_content(ext_data, ext_len),
        23 => parse_tls_extension_extended_master_secret_content(ext_data, ext_len),
        27 => parse_tls_extension_compress_certificate_content(ext_data, ext_len),
        28 => parse_tls_extension_record_size_limit(ext_data),
        35 => parse_tls_extension_session_ticket_content(ext_data, ext_len),
        41 => parse_tls_extension_pre_shared_key_content(ext_data, ext_len),
        42 => parse_tls_extension_early_data_content(ext_data, ext_len),
        43 => parse_tls_extension_supported_versions_content(ext_data, ext_len),
        44 => parse_tls_extension_cookie_content(ext_data, ext_len),
        45 => parse_tls_extension_psk_key_exchange_modes_content(ext_data),
        48 => parse_tls_extension_oid_filters(ext_data),
        49 => parse_tls_extension_post_handshake_auth_content(ext_data, ext_len),
        51 => parse_tls_extension_client_shares_content(ext_data, ext_len),
        57 => parse_tls_extension_quic_transport_parameters(ext_data, ext_len),
        13172 => parse_tls_extension_npn_content(ext_data, ext_len),
        0xff01 => parse_tls_extension_renegotiation_info_content(ext_data),
        0xfe0d => parse_tls_extension_encrypted_client_hello(ext_data),
        0xffce => parse_tls_extension_encrypted_server_name(ext_data),
        _ => Ok((i, TlsExtension::Unknown(TlsExtensionType(ext_type), ext_data))),
    };
    let (_, ext) = r?;
    Ok((i, ext))
}

/// Parses a single extension of a server hello.
pub fn parse_tls_server_hello_extension<'a>(i: &'a [u8]) -> (res: IResult<'a, TlsExtension<'a>>)
    ensures
        res_view(res) == spec_extension(Context::ServerHello, i@),
{
    let (i, ext_type) = be_u16(i)?;
    let (i, ext_data) = length_data_u16(i)?;
    if ext_type & 0x0f0f == 0x0a0a {
        return Ok((i, TlsExtension::Grease(ext_type, ext_data)));
    }
    let ext_len = ext_data.len() as u16;
    let r = match ext_type {
        0 => parse_tls_extension_sni_content(ext_data),
        1 => parse_tls_extension_max_fragment_length_content(ext_data),
        5 => parse_tls_extension_status_request_content(ext_data, ext_len),
        11 => parse_tls_extension_ec_point_formats_content(ext_data),
        13 => parse_tls_extension_signature_algorithms_content(ext_data),
        15 => parse_tls_extension_heartbeat_content(ext_data),
        16 => parse_tls_extension_alpn_content(ext_data),
        18 => parse_tls_extension_signed_certificate_timestamp_content(ext_data),
        21 => parse_tls_extension_padding_content(ext_data, ext_len),
        22 => parse_tls_extension_encrypt_then_mac_content(ext_data, ext_len),
        23 => parse_tls_extension_extended_master_secret_content(ext_data, ext_len),
        27 => parse_tls_extension_compress_certificate_content(ext_data, ext_len),
        28 => parse_tls_extension_record_size_limit(ext_data),
        35 => parse_tls_extension_session_ticket_content(ext_data, ext_len),
        41 => parse_tls_extension_pre_shared_key_content(ext_data, ext_len),
        42 => parse_tls_extension_early_data_content(ext_data, ext_len),
        43 => parse_tls_extension_supported_versions_content(ext_data, ext_len),
        44 => parse_tls_extension_cookie_content(ext_data, ext_len),
        51 => parse_tls_extension_server_share_content(ext_data, ext_len),
        13172 => parse_tls_extension_npn_content(ext_data, ext_len),
        0xff01 => parse_tls_extension_renegotiation_info_content(ext_data),
        _ => Ok((i, TlsExtension::Unknown(TlsExtensionType(ext_type), ext_data))),
    };
    let (_, ext) = r?;
    Ok((i, ext))
}

/// Parses a single extension of any type.
pub fn parse_tls_extension<'a>(i: &'a [u8]) -> (res: IResult<'a, TlsExtension<'a>>)
    ensures
        res_view(res) == spec_extension(Context::Any, i@),
{
    let (i, ext_type) = be_u16(i)?;
    let (i, ext_data) = length_data_u16(i)?;
    if ext_type & 0x0f0f == 0x0a0a {
        return Ok((i, TlsExtension::Grease(ext_type, ext_data)));
    }
    let ext_len = ext_data.len() as u16;
    let r = match ext_type {
        0 => parse_tls_extension_sni_content(ext_data),
        1 => parse_tls_extension_max_fragment_length_content(ext_data),
        5 => parse_tls_extension_status_request_content(ext_data, ext_len),
        10 => parse_tls_extension_supported_groups_content(ext_data),
        11 => parse_tls_extension_ec_point_formats_content(ext_data),
        13 => parse_tls_extension_signature_algorithms_content(ext_data),
        15 => parse_tls_extension_heartbeat_content(ext_data),
        16 => parse_tls_extension_alpn_content(ext_data),
        18 => parse_tls_extension_signed_certificate_timestamp_content(ext_data),
        21 => parse_tls_extension_padding_content(ext_data, ext_len),
        22 => parse_tls_extension_encrypt_then_mac_content(ext_data, ext_len),
        23 => parse_tls_extension_extended_master_secret_content(ext_data, ext_len),
        27 => parse_tls_extension_compress_certificate_content(ext_data, ext_len),
        28 => parse_tls_extension_record_size_limit(ext_data),
        35 => parse_tls_extension_session_ticket_content(ext_data, ext_len),
        40 => parse_tls_extension_key_share_old_content(ext_data, ext_len),
        41 => parse_tls_extension_pre_shared_key_content(ext_data, ext_len),
        42 => parse_tls_extension_early_data_content(ext_data, ext_len),
        43 => parse_tls_extension_supported_versions_content(ext_data, ext_len),
        44 => parse_tls_extension_cookie_content(ext_data, ext_len),
        45 => parse_tls_extension_psk_key_exchange_modes_content(ext_data),
        48 => parse_tls_extension_oid_filters(ext_data),
        49 => parse_tls_extension_post_handshake_auth_content(ext_data, ext_len),
        51 => parse_tls_extension_key_share_old_content(ext_data, ext_len),
        13172 => parse_tls_extension_npn_content(ext_data, ext_len),
        0xff01 => parse_tls_extension_renegotiation_info_content(ext_data),
        0xffce => parse_tls_extension_encrypted_server_name(ext_data),
        _ => Ok((i, TlsExtension::Unknown(TlsExtensionType(ext_type), ext_data))),
    };
    let (_, ext) = r?;
    Ok((i, ext))
}

/// Parses zero or more extensions of a client hello.
pub fn parse_tls_client_hello_extensions<'a>(i: &'a [u8]) -> (res: IResult<'a, Vec<TlsExtension<'a>>>)
    ensures
        res_vec_view(res) == spec_extensions(Context::ClientHello, i@),
{
    many0_complete(parse_tls_client_hello_extension, Ghost(extension_fn(Context::ClientHello)), i)
}

/// Parses zero or more extensions of a server hello.
pub fn parse_tls_server_hello_extensions<'a>(i: &'a [u8]) -> (res: IResult<'a, Vec<TlsExtension<'a>>>)
    ensures
        res_vec_view(res) == spec_extensions(Context::ServerHello, i@),
{
    many0_complete(parse_tls_server_hello_extension, Ghost(extension_fn(Context::ServerHello)), i)
}

/// Parses zero or more extensions of any type.
pub fn parse_tls_extensions<'a>(i: &'a [u8]) -> (res: IResult<'a, Vec<TlsExtension<'a>>>)
    ensures
        res_vec_view(res) == spec_extensions(Context::Any, i@),
{
    many0_complete(parse_tls_extension, Ghost(extension_fn(Context::Any)), i)
}

} // verus!
