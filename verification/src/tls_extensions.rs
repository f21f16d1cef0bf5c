//! The TLS extension types and values, and the mathematical model that the
//! parsers' contracts speak of.
use vstd::prelude::*;
use crate::error::{IResult, res_view, vec_view};
use crate::combinator::{be_u8, be_u16, length_data_u16, spec_be_u8, spec_be_u16};
use crate::grammar::spec_parse_keyshare_entry;
use crate::tls_common::{NamedGroup, SignatureScheme, TlsCipherSuiteID, TlsVersion};

verus! {

/// TLS extension types, as registered in the IANA "TLS ExtensionType
/// Values" registry.
#[derive(Clone, Copy, Debug, PartialEq, Eq, Hash, Structural)]
pub struct TlsExtensionType(pub u16);

#[allow(non_snake_case)]
impl TlsExtensionType {
    /// The `ServerName` code point, 0.
    #[verifier::allow_in_spec]
    pub fn ServerName() -> TlsExtensionType
        returns
            TlsExtensionType(0),
    {
        TlsExtensionType(0)
    }

    /// The `MaxFragmentLength` code point, 1.
    #[verifier::allow_in_spec]
    pub fn MaxFragmentLength() -> TlsExtensionType
        returns
            TlsExtensionType(1),
    {
        TlsExtensionType(1)
    }

    /// The `ClientCertificate` code point, 2.
    #[verifier::allow_in_spec]
    pub fn ClientCertificate() -> TlsExtensionType
        returns
            TlsExtensionType(2),
    {
        TlsExtensionType(2)
    }

    /// The `TrustedCaKeys` code point, 3.
    #[verifier::allow_in_spec]
    pub fn TrustedCaKeys() -> TlsExtensionType
        returns
            TlsExtensionType(3),
    {
        TlsExtensionType(3)
    }

    /// The `TruncatedHMac` code point, 4.
    #[verifier::allow_in_spec]
    pub fn TruncatedHMac() -> TlsExtensionType
        returns
            TlsExtensionType(4),
    {
        TlsExtensionType(4)
    }

    /// The `StatusRequest` code point, 5.
    #[verifier::allow_in_spec]
    pub fn StatusRequest() -> TlsExtensionType
        returns
            TlsExtensionType(5),
    {
        TlsExtensionType(5)
    }

    /// The `UserMapping` code point, 6.
    #[verifier::allow_in_spec]
    pub fn UserMapping() -> TlsExtensionType
        returns
            TlsExtensionType(6),
    {
        TlsExtensionType(6)
    }

    /// The `ClientAuthz` code point, 7.
    #[verifier::allow_in_spec]
    pub fn ClientAuthz() -> TlsExtensionType
        returns
            TlsExtensionType(7),
    {
        TlsExtensionType(7)
    }

    /// The `ServerAuthz` code point, 8.
    #[verifier::allow_in_spec]
    pub fn ServerAuthz() -> TlsExtensionType
        returns
            TlsExtensionType(8),
    {
        TlsExtensionType(8)
    }

    /// The `CertType` code point, 9.
    #[verifier::allow_in_spec]
    pub fn CertType() -> TlsExtensionType
        returns
            TlsExtensionType(9),
    {
        TlsExtensionType(9)
    }

    /// The `SupportedGroups` code point, 10.
    #[verifier::allow_in_spec]
    pub fn SupportedGroups() -> TlsExtensionType
        returns
            TlsExtensionType(10),
    {
        TlsExtensionType(10)
    }

    /// The `EcPointFormats` code point, 11.
    #[verifier::allow_in_spec]
    pub fn EcPointFormats() -> TlsExtensionType
        returns
            TlsExtensionType(11),
    {
        TlsExtensionType(11)
    }

    /// The `Srp` code point, 12.
    #[verifier::allow_in_spec]
    pub fn Srp() -> TlsExtensionType
        returns
            TlsExtensionType(12),
    {
        TlsExtensionType(12)
    }

    /// The `SignatureAlgorithms` code point, 13.
    #[verifier::allow_in_spec]
    pub fn SignatureAlgorithms() -> TlsExtensionType
        returns
            TlsExtensionType(13),
    {
        TlsExtensionType(13)
    }

    /// The `UseSrtp` code point, 14.
    #[verifier::allow_in_spec]
    pub fn UseSrtp() -> TlsExtensionType
        returns
            TlsExtensionType(14),
    {
        TlsExtensionType(14)
    }

    /// The `Heartbeat` code point, 15.
    #[verifier::allow_in_spec]
    pub fn Heartbeat() -> TlsExtensionType
        returns
            TlsExtensionType(15),
    {
        TlsExtensionType(15)
    }

    /// The `ApplicationLayerProtocolNegotiation` code point, 16.
    #[verifier::allow_in_spec]
    pub fn ApplicationLayerProtocolNegotiation() -> TlsExtensionType
        returns
            TlsExtensionType(16),
    {
        TlsExtensionType(16)
    }

    /// The `StatusRequestv2` code point, 17.
    #[verifier::allow_in_spec]
    pub fn StatusRequestv2() -> TlsExtensionType
        returns
            TlsExtensionType(17),
    {
        TlsExtensionType(17)
    }

    /// The `SignedCertificateTimestamp` code point, 18.
    #[verifier::allow_in_spec]
    pub fn SignedCertificateTimestamp() -> TlsExtensionType
        returns
            TlsExtensionType(18),
    {
        TlsExtensionType(18)
    }

    /// The `ClientCertificateType` code point, 19.
    #[verifier::allow_in_spec]
    pub fn ClientCertificateType() -> TlsExtensionType
        returns
            TlsExtensionType(19),
    {
        TlsExtensionType(19)
    }

    /// The `ServerCertificateType` code point, 20.
    #[verifier::allow_in_spec]
    pub fn ServerCertificateType() -> TlsExtensionType
        returns
            TlsExtensionType(20),
    {
        TlsExtensionType(20)
    }

    /// The `Padding` code point, 21.
    #[verifier::allow_in_spec]
    pub fn Padding() -> TlsExtensionType
        returns
            TlsExtensionType(21),
    {
        TlsExtensionType(21)
    }

    /// The `EncryptThenMac` code point, 22.
    #[verifier::allow_in_spec]
    pub fn EncryptThenMac() -> TlsExtensionType
        returns
            TlsExtensionType(22),
    {
        TlsExtensionType(22)
    }

    /// The `ExtendedMasterSecret` code point, 23.
    #[verifier::allow_in_spec]
    pub fn ExtendedMasterSecret() -> TlsExtensionType
        returns
            TlsExtensionType(23),
    {
        TlsExtensionType(23)
    }

    /// The `TokenBinding` code point, 24.
    #[verifier::allow_in_spec]
    pub fn TokenBinding() -> TlsExtensionType
        returns
            TlsExtensionType(24),
    {
        TlsExtensionType(24)
    }

    /// The `CachedInfo` code point, 25.
    #[verifier::allow_in_spec]
    pub fn CachedInfo() -> TlsExtensionType
        returns
            TlsExtensionType(25),
    {
        TlsExtensionType(25)
    }

    /// The `CompressCertificate` code point, 27.
    #[verifier::allow_in_spec]
    pub fn CompressCertificate() -> TlsExtensionType
        returns
            TlsExtensionType(27),
    {
        TlsExtensionType(27)
    }

    /// The `RecordSizeLimit` code point, 28.
    #[verifier::allow_in_spec]
    pub fn RecordSizeLimit() -> TlsExtensionType
        returns
            TlsExtensionType(28),
    {
        TlsExtensionType(28)
    }

    /// The `PwdProtect` code point, 29.
    #[verifier::allow_in_spec]
    pub fn PwdProtect() -> TlsExtensionType
        returns
            TlsExtensionType(29),
    {
        TlsExtensionType(29)
    }

    /// The `PwdClear` code point, 30.
    #[verifier::allow_in_spec]
    pub fn PwdClear() -> TlsExtensionType
        returns
            TlsExtensionType(30),
    {
        TlsExtensionType(30)
    }

    /// The `PasswordSalt` code point, 31.
    #[verifier::allow_in_spec]
    pub fn PasswordSalt() -> TlsExtensionType
        returns
            TlsExtensionType(31),
    {
        TlsExtensionType(31)
    }

    /// The `TicketPinning` code point, 32.
    #[verifier::allow_in_spec]
    pub fn TicketPinning() -> TlsExtensionType
        returns
            TlsExtensionType(32),
    {
        TlsExtensionType(32)
    }

    /// The `TlsCertWithExternPsk` code point, 33.
    #[verifier::allow_in_spec]
    pub fn TlsCertWithExternPsk() -> TlsExtensionType
        returns
            TlsExtensionType(33),
    {
        TlsExtensionType(33)
    }

    /// The `DelegatedCredentials` code point, 34.
    #[verifier::allow_in_spec]
    pub fn DelegatedCredentials() -> TlsExtensionType
        returns
            TlsExtensionType(34),
    {
        TlsExtensionType(34)
    }

    /// The `SessionTicketTLS` code point, 35.
    #[verifier::allow_in_spec]
    pub fn SessionTicketTLS() -> TlsExtensionType
        returns
            TlsExtensionType(35),
    {
        TlsExtensionType(35)
    }

    /// The `Tlmsp` code point, 36.
    #[verifier::allow_in_spec]
    pub fn Tlmsp() -> TlsExtensionType
        returns
            TlsExtensionType(36),
    {
        TlsExtensionType(36)
    }

    /// The `TlmspProxying` code point, 37.
    #[verifier::allow_in_spec]
    pub fn TlmspProxying() -> TlsExtensionType
        returns
            TlsExtensionType(37),
    {
        TlsExtensionType(37)
    }

    /// The `TlmspDelegate` code point, 38.
    #[verifier::allow_in_spec]
    pub fn TlmspDelegate() -> TlsExtensionType
        returns
            TlsExtensionType(38),
    {
        TlsExtensionType(38)
    }

    /// The `SupportedEktCiphers` code point, 39.
    #[verifier::allow_in_spec]
    pub fn SupportedEktCiphers() -> TlsExtensionType
        returns
            TlsExtensionType(39),
    {
        TlsExtensionType(39)
    }

    /// The `KeyShareOld` code point, 40.
    #[verifier::allow_in_spec]
    pub fn KeyShareOld() -> TlsExtensionType
        returns
            TlsExtensionType(40),
    {
        TlsExtensionType(40)
    }

    /// The `PreSharedKey` code point, 41.
    #[verifier::allow_in_spec]
    pub fn PreSharedKey() -> TlsExtensionType
        returns
            TlsExtensionType(41),
    {
        TlsExtensionType(41)
    }

    /// The `EarlyData` code point, 42.
    #[verifier::allow_in_spec]
    pub fn EarlyData() -> TlsExtensionType
        returns
            TlsExtensionType(42),
    {
        TlsExtensionType(42)
    }

    /// The `SupportedVersions` code point, 43.
    #[verifier::allow_in_spec]
    pub fn SupportedVersions() -> TlsExtensionType
        returns
            TlsExtensionType(43),
    {
        TlsExtensionType(43)
    }

    /// The `Cookie` code point, 44.
    #[verifier::allow_in_spec]
    pub fn Cookie() -> TlsExtensionType
        returns
            TlsExtensionType(44),
    {
        TlsExtensionType(44)
    }

    /// The `PskExchangeModes` code point, 45.
    #[verifier::allow_in_spec]
    pub fn PskExchangeModes() -> TlsExtensionType
        returns
            TlsExtensionType(45),
    {
        TlsExtensionType(45)
    }

    /// The `TicketEarlyDataInfo` code point, 46.
    #[verifier::allow_in_spec]
    pub fn TicketEarlyDataInfo() -> TlsExtensionType
        returns
            TlsExtensionType(46),
    {
        TlsExtensionType(46)
    }

    /// The `CertificateAuthorities` code point, 47.
    #[verifier::allow_in_spec]
    pub fn CertificateAuthorities() -> TlsExtensionType
        returns
            TlsExtensionType(47),
    {
        TlsExtensionType(47)
    }

    /// The `OidFilters` code point, 48.
    #[verifier::allow_in_spec]
    pub fn OidFilters() -> TlsExtensionType
        returns
            TlsExtensionType(48),
    {
        TlsExtensionType(48)
    }

    /// The `PostHandshakeAuth` code point, 49.
    #[verifier::allow_in_spec]
    pub fn PostHandshakeAuth() -> TlsExtensionType
        returns
            TlsExtensionType(49),
    {
        TlsExtensionType(49)
    }

    /// The `SigAlgorithmsCert` code point, 50.
    #[verifier::allow_in_spec]
    pub fn SigAlgorithmsCert() -> TlsExtensionType
        returns
            TlsExtensionType(50),
    {
        TlsExtensionType(50)
    }

    /// The `KeyShare` code point, 51.
    #[verifier::allow_in_spec]
    pub fn KeyShare() -> TlsExtensionType
        returns
            TlsExtensionType(51),
    {
        TlsExtensionType(51)
    }

    /// The `TransparencyInfo` code point, 52.
    #[verifier::allow_in_spec]
    pub fn TransparencyInfo() -> TlsExtensionType
        returns
            TlsExtensionType(52),
    {
        TlsExtensionType(52)
    }

    /// The `ConnectionIdOld` code point, 53.
    #[verifier::allow_in_spec]
    pub fn ConnectionIdOld() -> TlsExtensionType
        returns
            TlsExtensionType(53),
    {
        TlsExtensionType(53)
    }

    /// The `ConnectionId` code point, 54.
    #[verifier::allow_in_spec]
    pub fn ConnectionId() -> TlsExtensionType
        returns
            TlsExtensionType(54),
    {
        TlsExtensionType(54)
    }

    /// The `ExternalIdHash` code point, 55.
    #[verifier::allow_in_spec]
    pub fn ExternalIdHash() -> TlsExtensionType
        returns
            TlsExtensionType(55),
    {
        TlsExtensionType(55)
    }

    /// The `ExternalSessionId` code point, 56.
    #[verifier::allow_in_spec]
    pub fn ExternalSessionId() -> TlsExtensionType
        returns
            TlsExtensionType(56),
    {
        TlsExtensionType(56)
    }

    /// The `QuicTransportParameters` code point, 57.
    #[verifier::allow_in_spec]
    pub fn QuicTransportParameters() -> TlsExtensionType
        returns
            TlsExtensionType(57),
    {
        TlsExtensionType(57)
    }

    /// The `TicketRequest` code point, 58.
    #[verifier::allow_in_spec]
    pub fn TicketRequest() -> TlsExtensionType
        returns
            TlsExtensionType(58),
    {
        TlsExtensionType(58)
    }

    /// The `DnssecChain` code point, 58.
    #[verifier::allow_in_spec]
    pub fn DnssecChain() -> TlsExtensionType
        returns
            TlsExtensionType(58),
    {
        TlsExtensionType(58)
    }

    /// The `NextProtocolNegotiation` code point, 13172.
    #[verifier::allow_in_spec]
    pub fn NextProtocolNegotiation() -> TlsExtensionType
        returns
            TlsExtensionType(13172),
    {
        TlsExtensionType(13172)
    }

    /// The `Grease` code point, 0xfafa.
    #[verifier::allow_in_spec]
    pub fn Grease() -> TlsExtensionType
        returns
            TlsExtensionType(0xfafa),
    {
        TlsExtensionType(0xfafa)
    }

    /// The `RenegotiationInfo` code point, 0xff01.
    #[verifier::allow_in_spec]
    pub fn RenegotiationInfo() -> TlsExtensionType
        returns
            TlsExtensionType(0xff01),
    {
        TlsExtensionType(0xff01)
    }

    /// The `EncryptedClientHello` code point, 0xfe0d.
    #[verifier::allow_in_spec]
    pub fn EncryptedClientHello() -> TlsExtensionType
        returns
            TlsExtensionType(0xfe0d),
    {
        TlsExtensionType(0xfe0d)
    }

    /// The `EncryptedServerName` code point, 0xffce.
    #[verifier::allow_in_spec]
    pub fn EncryptedServerName() -> TlsExtensionType
        returns
            TlsExtensionType(0xffce),
    {
        TlsExtensionType(0xffce)
    }
}

impl TlsExtensionType {
    /// The extension type with code point `t`.
    pub fn from_u16(t: u16) -> (res: TlsExtensionType)
        ensures
            res == TlsExtensionType(t),
    {
        TlsExtensionType(t)
    }
}

impl View for TlsExtensionType {
    type V = TlsExtensionType;

    open spec fn view(&self) -> TlsExtensionType {
        *self
    }
}

impl vstd::std_specs::convert::FromSpecImpl<TlsExtensionType> for u16 {
    open spec fn obeys_from_spec() -> bool {
        true
    }

    open spec fn from_spec(ext: TlsExtensionType) -> u16 {
        ext.0
    }
}

impl From<TlsExtensionType> for u16 {
    fn from(ext: TlsExtensionType) -> (res: u16) {
        ext.0
    }
}

/// A key share entry: a named group and its key exchange data.
#[derive(Clone, Debug, PartialEq, Eq, Hash)]
pub struct KeyShareEntry<'a> {
    pub group: NamedGroup,
    pub kx: &'a [u8],
}

/// A pre-shared key exchange mode, RFC 8446.
#[derive(Clone, Copy, Debug, PartialEq, Eq, Hash, Structural)]
pub struct PskKeyExchangeMode(pub u8);

#[allow(non_snake_case)]
impl PskKeyExchangeMode {
    /// The `Psk` code point, 0.
    #[verifier::allow_in_spec]
    pub fn Psk() -> PskKeyExchangeMode
        returns
            PskKeyExchangeMode(0),
    {
        PskKeyExchangeMode(0)
    }

    /// The `PskDhe` code point, 1.
    #[verifier::allow_in_spec]
    pub fn PskDhe() -> PskKeyExchangeMode
        returns
            PskKeyExchangeMode(1),
    {
        PskKeyExchangeMode(1)
    }
}

/// The type of a name in the server name extension, RFC 6066.
#[derive(Clone, Copy, Debug, PartialEq, Eq, Hash, Structural)]
pub struct SNIType(pub u8);

#[allow(non_snake_case)]
impl SNIType {
    /// The `HostName` code point, 0.
    #[verifier::allow_in_spec]
    pub fn HostName() -> SNIType
        returns
            SNIType(0),
    {
        SNIType(0)
    }
}

/// The type of a certificate status request, RFC 6066.
#[derive(Clone, Copy, Debug, PartialEq, Eq, Hash, Structural)]
pub struct CertificateStatusType(pub u8);

#[allow(non_snake_case)]
impl CertificateStatusType {
    /// The `OCSP` code point, 1.
    #[verifier::allow_in_spec]
    pub fn OCSP() -> CertificateStatusType
        returns
            CertificateStatusType(1),
    {
        CertificateStatusType(1)
    }
}

impl View for PskKeyExchangeMode {
    type V = PskKeyExchangeMode;

    open spec fn view(&self) -> PskKeyExchangeMode {
        *self
    }
}

impl View for SNIType {
    type V = SNIType;

    open spec fn view(&self) -> SNIType {
        *self
    }
}

impl View for CertificateStatusType {
    type V = CertificateStatusType;

    open spec fn view(&self) -> CertificateStatusType {
        *self
    }
}

/// An OID filter of a certificate request, TLS 1.3 draft 19.
#[derive(Clone, Debug, PartialEq, Eq, Hash)]
pub struct OidFilter<'a> {
    pub cert_ext_oid: &'a [u8],
    pub cert_ext_val: &'a [u8],
}

/// A QUIC transport parameter, RFC 9001.
#[derive(Clone, Debug, PartialEq, Eq, Hash)]
pub struct QuicTransportParameter<'a> {
    pub id: u64,
    pub value: &'a [u8],
}

/// A TLS extension, its content borrowed from the parsed input.
#[allow(inconsistent_fields)]
#[derive(Clone, Debug, PartialEq, Eq, Hash)]
pub enum TlsExtension<'a> {
    SNI(Vec<(SNIType, &'a [u8])>),
    MaxFragmentLength(u8),
    StatusRequest(Option<(CertificateStatusType, &'a [u8])>),
    SupportedGroups(Vec<NamedGroup>),
    EcPointFormats(&'a [u8]),
    SignatureAlgorithms(Vec<SignatureScheme>),
    CompressCertificate(&'a [u8]),
    RecordSizeLimit(u16),
    SessionTicket(&'a [u8]),
    KeyShareOld(&'a [u8]),
    KeyShare(Vec<KeyShareEntry<'a>>),
    PreSharedKey(&'a [u8]),
    EarlyData(Option<u32>),
    SupportedVersions(Vec<TlsVersion>),
    Cookie(&'a [u8]),
    PskExchangeModes(Vec<u8>),
    Heartbeat(u8),
    ALPN(Vec<&'a [u8]>),
    SignedCertificateTimestamp(Option<&'a [u8]>),
    Padding(&'a [u8]),
    EncryptThenMac,
    ExtendedMasterSecret,
    OidFilters(Vec<OidFilter<'a>>),
    PostHandshakeAuth,
    NextProtocolNegotiation,
    RenegotiationInfo(&'a [u8]),
    EncryptedClientHello {
        ch_type: u8,
        ciphersuite: u32,
        config_id: u8,
        enc: &'a [u8],
        payload: &'a [u8],
    },
    EncryptedServerName {
        ciphersuite: TlsCipherSuiteID,
        group: NamedGroup,
        key_share: &'a [u8],
        record_digest: &'a [u8],
        encrypted_sni: &'a [u8],
    },
    QuicTransportParameters(&'a [u8]),
    Grease(u16, &'a [u8]),
    Unknown(TlsExtensionType, &'a [u8]),
}

/// Model of a key share entry.
#[verifier::ext_equal]
pub struct SpecKeyShareEntry {
    pub group: NamedGroup,
    pub kx: Seq<u8>,
}

/// Model of an OID filter.
#[verifier::ext_equal]
pub struct SpecOidFilter {
    pub cert_ext_oid: Seq<u8>,
    pub cert_ext_val: Seq<u8>,
}

/// Model of a QUIC transport parameter.
#[verifier::ext_equal]
pub struct SpecQuicTransportParameter {
    pub id: u64,
    pub value: Seq<u8>,
}

/// Model of a TLS extension: byte strings as sequences, lists as
/// sequences of models.
#[allow(inconsistent_fields)]
#[verifier::ext_equal]
pub enum SpecTlsExtension {
    SNI(Seq<(SNIType, Seq<u8>)>),
    MaxFragmentLength(u8),
    StatusRequest(Option<(CertificateStatusType, Seq<u8>)>),
    SupportedGroups(Seq<NamedGroup>),
    EcPointFormats(Seq<u8>),
    SignatureAlgorithms(Seq<SignatureScheme>),
    CompressCertificate(Seq<u8>),
    RecordSizeLimit(u16),
    SessionTicket(Seq<u8>),
    KeyShareOld(Seq<u8>),
    KeyShare(Seq<SpecKeyShareEntry>),
    PreSharedKey(Seq<u8>),
    EarlyData(Option<u32>),
    SupportedVersions(Seq<TlsVersion>),
    Cookie(Seq<u8>),
    PskExchangeModes(Seq<u8>),
    Heartbeat(u8),
    ALPN(Seq<Seq<u8>>),
    SignedCertificateTimestamp(Option<Seq<u8>>),
    Padding(Seq<u8>),
    EncryptThenMac,
    ExtendedMasterSecret,
    OidFilters(Seq<SpecOidFilter>),
    PostHandshakeAuth,
    NextProtocolNegotiation,
    RenegotiationInfo(Seq<u8>),
    EncryptedClientHello {
        ch_type: u8,
        ciphersuite: u32,
        config_id: u8,
        enc: Seq<u8>,
        payload: Seq<u8>,
    },
    EncryptedServerName {
        ciphersuite: TlsCipherSuiteID,
        group: NamedGroup,
        key_share: Seq<u8>,
        record_digest: Seq<u8>,
        encrypted_sni: Seq<u8>,
    },
    QuicTransportParameters(Seq<u8>),
    Grease(u16, Seq<u8>),
    Unknown(TlsExtensionType, Seq<u8>),
}

impl<'a> View for KeyShareEntry<'a> {
    type V = SpecKeyShareEntry;

    open spec fn view(&self) -> SpecKeyShareEntry {
        SpecKeyShareEntry { group: self.group, kx: self.kx@ }
    }
}

impl<'a> View for OidFilter<'a> {
    type V = SpecOidFilter;

    open spec fn view(&self) -> SpecOidFilter {
        SpecOidFilter { cert_ext_oid: self.cert_ext_oid@, cert_ext_val: self.cert_ext_val@ }
    }
}

impl<'a> View for QuicTransportParameter<'a> {
    type V = SpecQuicTransportParameter;

    open spec fn view(&self) -> SpecQuicTransportParameter {
        SpecQuicTransportParameter { id: self.id, value: self.value@ }
    }
}

impl<'a> View for TlsExtension<'a> {
    type V = SpecTlsExtension;

    open spec fn view(&self) -> SpecTlsExtension {
        match *self {
            TlsExtension::SNI(v) => SpecTlsExtension::SNI(vec_view(v)),
            TlsExtension::MaxFragmentLength(x) => SpecTlsExtension::MaxFragmentLength(x),
            TlsExtension::StatusRequest(o) => SpecTlsExtension::StatusRequest(
                match o {
                    Some((t, r)) => Some((t, r@)),
                    None => None,
                },
            ),
            TlsExtension::SupportedGroups(v) => SpecTlsExtension::SupportedGroups(v@),
            TlsExtension::EcPointFormats(s) => SpecTlsExtension::EcPointFormats(s@),
            TlsExtension::SignatureAlgorithms(v) => SpecTlsExtension::SignatureAlgorithms(v@),
            TlsExtension::CompressCertificate(s) => SpecTlsExtension::CompressCertificate(s@),
            TlsExtension::RecordSizeLimit(x) => SpecTlsExtension::RecordSizeLimit(x),
            TlsExtension::SessionTicket(s) => SpecTlsExtension::SessionTicket(s@),
            TlsExtension::KeyShareOld(s) => SpecTlsExtension::KeyShareOld(s@),
            TlsExtension::KeyShare(v) => SpecTlsExtension::KeyShare(vec_view(v)),
            TlsExtension::PreSharedKey(s) => SpecTlsExtension::PreSharedKey(s@),
            TlsExtension::EarlyData(o) => SpecTlsExtension::EarlyData(o),
            TlsExtension::SupportedVersions(v) => SpecTlsExtension::SupportedVersions(v@),
            TlsExtension::Cookie(s) => SpecTlsExtension::Cookie(s@),
            TlsExtension::PskExchangeModes(v) => SpecTlsExtension::PskExchangeModes(v@),
            TlsExtension::Heartbeat(x) => SpecTlsExtension::Heartbeat(x),
            TlsExtension::ALPN(v) => SpecTlsExtension::ALPN(vec_view(v)),
            TlsExtension::SignedCertificateTimestamp(o) => SpecTlsExtension::SignedCertificateTimestamp(
                match o {
                    Some(s) => Some(s@),
                    None => None,
                },
            ),
            TlsExtension::Padding(s) => SpecTlsExtension::Padding(s@),
            TlsExtension::EncryptThenMac => SpecTlsExtension::EncryptThenMac,
            TlsExtension::ExtendedMasterSecret => SpecTlsExtension::ExtendedMasterSecret,
            TlsExtension::OidFilters(v) => SpecTlsExtension::OidFilters(vec_view(v)),
            TlsExtension::PostHandshakeAuth => SpecTlsExtension::PostHandshakeAuth,
            TlsExtension::NextProtocolNegotiation => SpecTlsExtension::NextProtocolNegotiation,
            TlsExtension::RenegotiationInfo(s) => SpecTlsExtension::RenegotiationInfo(s@),
            TlsExtension::EncryptedClientHello { ch_type, ciphersuite, config_id, enc, payload } =>
                SpecTlsExtension::EncryptedClientHello {
                ch_type,
                ciphersuite,
                config_id,
                enc: enc@,
                payload: payload@,
            },
            TlsExtension::EncryptedServerName {
                ciphersuite,
                group,
                key_share,
                record_digest,
                encrypted_sni,
            } => SpecTlsExtension::EncryptedServerName {
                ciphersuite,
                group,
                key_share: key_share@,
                record_digest: record_digest@,
                encrypted_sni: encrypted_sni@,
            },
            TlsExtension::QuicTransportParameters(s) => SpecTlsExtension::QuicTransportParameters(s@),
            TlsExtension::Grease(t, s) => SpecTlsExtension::Grease(t, s@),
            TlsExtension::Unknown(t, s) => SpecTlsExtension::Unknown(t, s@),
        }
    }
}

/// The registered type of an extension value. Grease values map to the
/// generic grease type and unknown extensions to the type they carry.
pub open spec fn spec_extension_type(ext: SpecTlsExtension) -> TlsExtensionType {
    match ext {
        SpecTlsExtension::SNI(_) => TlsExtensionType::ServerName(),
        SpecTlsExtension::MaxFragmentLength(_) => TlsExtensionType::MaxFragmentLength(),
        SpecTlsExtension::StatusRequest(_) => TlsExtensionType::StatusRequest(),
        SpecTlsExtension::SupportedGroups(_) => TlsExtensionType::SupportedGroups(),
        SpecTlsExtension::EcPointFormats(_) => TlsExtensionType::EcPointFormats(),
        SpecTlsExtension::SignatureAlgorithms(_) => TlsExtensionType::SignatureAlgorithms(),
        SpecTlsExtension::CompressCertificate(_) => TlsExtensionType::CompressCertificate(),
        SpecTlsExtension::SessionTicket(_) => TlsExtensionType::SessionTicketTLS(),
        SpecTlsExtension::RecordSizeLimit(_) => TlsExtensionType::RecordSizeLimit(),
        SpecTlsExtension::KeyShareOld(_) => TlsExtensionType::KeyShareOld(),
        SpecTlsExtension::KeyShare(_) => TlsExtensionType::KeyShare(),
        SpecTlsExtension::PreSharedKey(_) => TlsExtensionType::PreSharedKey(),
        SpecTlsExtension::EarlyData(_) => TlsExtensionType::EarlyData(),
        SpecTlsExtension::SupportedVersions(_) => TlsExtensionType::SupportedVersions(),
        SpecTlsExtension::Cookie(_) => TlsExtensionType::Cookie(),
        SpecTlsExtension::PskExchangeModes(_) => TlsExtensionType::PskExchangeModes(),
        SpecTlsExtension::Heartbeat(_) => TlsExtensionType::Heartbeat(),
        SpecTlsExtension::ALPN(_) => TlsExtensionType::ApplicationLayerProtocolNegotiation(),
        SpecTlsExtension::SignedCertificateTimestamp(_) => TlsExtensionType::SignedCertificateTimestamp(),
        SpecTlsExtension::Padding(_) => TlsExtensionType::Padding(),
        SpecTlsExtension::EncryptThenMac => TlsExtensionType::EncryptThenMac(),
        SpecTlsExtension::ExtendedMasterSecret => TlsExtensionType::ExtendedMasterSecret(),
        SpecTlsExtension::OidFilters(_) => TlsExtensionType::OidFilters(),
        SpecTlsExtension::PostHandshakeAuth => TlsExtensionType::PostHandshakeAuth(),
        SpecTlsExtension::NextProtocolNegotiation => TlsExtensionType::NextProtocolNegotiation(),
        SpecTlsExtension::RenegotiationInfo(_) => TlsExtensionType::RenegotiationInfo(),
        SpecTlsExtension::EncryptedClientHello { .. } => TlsExtensionType::EncryptedClientHello(),
        SpecTlsExtension::EncryptedServerName { .. } => TlsExtensionType::EncryptedServerName(),
        SpecTlsExtension::QuicTransportParameters(_) => TlsExtensionType::QuicTransportParameters(),
        SpecTlsExtension::Grease(_, _) => TlsExtensionType::Grease(),
        SpecTlsExtension::Unknown(t, _) => t,
    }
}

impl<'a> vstd::std_specs::convert::FromSpecImpl<&'a TlsExtension<'a>> for TlsExtensionType {
    open spec fn obeys_from_spec() -> bool {
        true
    }

    open spec fn from_spec(ext: &'a TlsExtension<'a>) -> TlsExtensionType {
        spec_extension_type(ext@)
    }
}

impl<'a> From<&'a TlsExtension<'a>> for TlsExtensionType {
    fn from(ext: &'a TlsExtension<'a>) -> (res: TlsExtensionType) {
        match ext {
            TlsExtension::SNI(_) => TlsExtensionType::ServerName(),
            TlsExtension::MaxFragmentLength(_) => TlsExtensionType::MaxFragmentLength(),
            TlsExtension::StatusRequest(_) => TlsExtensionType::StatusRequest(),
            TlsExtension::SupportedGroups(_) => TlsExtensionType::SupportedGroups(),
            TlsExtension::EcPointFormats(_) => TlsExtensionType::EcPointFormats(),
            TlsExtension::SignatureAlgorithms(_) => TlsExtensionType::SignatureAlgorithms(),
            TlsExtension::CompressCertificate(_) => TlsExtensionType::CompressCertificate(),
            TlsExtension::SessionTicket(_) => TlsExtensionType::SessionTicketTLS(),
            TlsExtension::RecordSizeLimit(_) => TlsExtensionType::RecordSizeLimit(),
            TlsExtension::KeyShareOld(_) => TlsExtensionType::KeyShareOld(),
            TlsExtension::KeyShare(_) => TlsExtensionType::KeyShare(),
            TlsExtension::PreSharedKey(_) => TlsExtensionType::PreSharedKey(),
            TlsExtension::EarlyData(_) => TlsExtensionType::EarlyData(),
            TlsExtension::SupportedVersions(_) => TlsExtensionType::SupportedVersions(),
            TlsExtension::Cookie(_) => TlsExtensionType::Cookie(),
            TlsExtension::PskExchangeModes(_) => TlsExtensionType::PskExchangeModes(),
            TlsExtension::Heartbeat(_) => TlsExtensionType::Heartbeat(),
            TlsExtension::ALPN(_) => TlsExtensionType::ApplicationLayerProtocolNegotiation(),
            TlsExtension::SignedCertificateTimestamp(_) => TlsExtensionType::SignedCertificateTimestamp(),
            TlsExtension::Padding(_) => TlsExtensionType::Padding(),
            TlsExtension::EncryptThenMac => TlsExtensionType::EncryptThenMac(),
            TlsExtension::ExtendedMasterSecret => TlsExtensionType::ExtendedMasterSecret(),
            TlsExtension::OidFilters(_) => TlsExtensionType::OidFilters(),
            TlsExtension::PostHandshakeAuth => TlsExtensionType::PostHandshakeAuth(),
            TlsExtension::NextProtocolNegotiation => TlsExtensionType::NextProtocolNegotiation(),
            TlsExtension::RenegotiationInfo(_) => TlsExtensionType::RenegotiationInfo(),
            TlsExtension::EncryptedClientHello { .. } => TlsExtensionType::EncryptedClientHello(),
            TlsExtension::EncryptedServerName { .. } => TlsExtensionType::EncryptedServerName(),
            TlsExtension::QuicTransportParameters(_) => TlsExtensionType::QuicTransportParameters(),
            TlsExtension::Grease(_, _) => TlsExtensionType::Grease(),
            TlsExtension::Unknown(x, _) => *x,
        }
    }
}

impl TlsExtensionType {
    /// Parses the code point from its big-endian encoding.
    pub fn parse<'a>(i: &'a [u8]) -> (res: IResult<'a, TlsExtensionType>)
        ensures
            res_view(res) == (match spec_be_u16(i@) {
                Ok((r, x)) => Ok((r, TlsExtensionType(x))),
                Err(e) => Err(e),
            }),
    {
        let (i, x) = be_u16(i)?;
        Ok((i, TlsExtensionType(x)))
    }
}

impl PskKeyExchangeMode {
    /// Parses the code point from its big-endian encoding.
    pub fn parse<'a>(i: &'a [u8]) -> (res: IResult<'a, PskKeyExchangeMode>)
        ensures
            res_view(res) == (match spec_be_u8(i@) {
                Ok((r, x)) => Ok((r, PskKeyExchangeMode(x))),
                Err(e) => Err(e),
            }),
    {
        let (i, x) = be_u8(i)?;
        Ok((i, PskKeyExchangeMode(x)))
    }
}

impl SNIType {
    /// Parses the code point from its big-endian encoding.
    pub fn parse<'a>(i: &'a [u8]) -> (res: IResult<'a, SNIType>)
        ensures
            res_view(res) == (match spec_be_u8(i@) {
                Ok((r, x)) => Ok((r, SNIType(x))),
                Err(e) => Err(e),
            }),
    {
        let (i, x) = be_u8(i)?;
        Ok((i, SNIType(x)))
    }
}

impl CertificateStatusType {
    /// Parses the code point from its big-endian encoding.
    pub fn parse<'a>(i: &'a [u8]) -> (res: IResult<'a, CertificateStatusType>)
        ensures
            res_view(res) == (match spec_be_u8(i@) {
                Ok((r, x)) => Ok((r, CertificateStatusType(x))),
                Err(e) => Err(e),
            }),
    {
        let (i, x) = be_u8(i)?;
        Ok((i, CertificateStatusType(x)))
    }
}

impl<'a> KeyShareEntry<'a> {
    /// Parses a named group and key exchange data with a two-byte length.
    pub fn parse(i: &'a [u8]) -> (res: IResult<'a, KeyShareEntry<'a>>)
        ensures
            res_view(res) == spec_parse_keyshare_entry(i@),
    {
        let (i, group) = NamedGroup::parse(i)?;
        let (i, kx) = length_data_u16(i)?;
        Ok((i, KeyShareEntry { group, kx }))
    }
}

} // verus!
