//! Human-readable names of code points: the registered name where there is
//! one, else the type's name with the value in decimal and hexadecimal.
use vstd::prelude::*;
use vstd::string::StringExecFns;
use crate::tls_extensions::{CertificateStatusType, SNIType, TlsExtensionType};

verus! {

/// The character of a digit below 16 (lower-case hexadecimal).
pub open spec fn digit_char(d: nat) -> char {
    if d < 10 {
        (48 + d) as char
    } else {
        (87 + d) as char
    }
}

/// The digits of `n` in base `base`, most significant first, without
/// leading zeros (zero is one digit).
pub open spec fn digits(n: nat, base: nat) -> Seq<char>
    recommends
        2 <= base <= 16,
    decreases n,
{
    if base < 2 || n < base {
        seq![digit_char(n)]
    } else {
        proof {
            assert(n / base < n) by (nonlinear_arith)
                requires
                    n >= base,
                    base >= 2,
            ;
        }
        digits(n / base, base).push(digit_char(n % base))
    }
}

/// The text of a code point without a registered name:
/// `Type(decimal / 0xhex)`.
pub open spec fn numbered_name(prefix: Seq<char>, n: nat) -> Seq<char> {
    prefix + seq!['('] + digits(n, 10) + seq![' ', '/', ' ', '0', 'x'] + digits(n, 16) + seq![')']
}

/// The registered name of an extension type; of two names for one value
/// the first registered.
pub open spec fn extension_prefix(t: u16) -> Option<Seq<char>> {
    if t == 0 {
        Some("ServerName"@)
    } else if t == 1 {
        Some("MaxFragmentLength"@)
    } else if t == 2 {
        Some("ClientCertificate"@)
    } else if t == 3 {
        Some("TrustedCaKeys"@)
    } else if t == 4 {
        Some("TruncatedHMac"@)
    } else if t == 5 {
        Some("StatusRequest"@)
    } else if t == 6 {
        Some("UserMapping"@)
    } else if t == 7 {
        Some("ClientAuthz"@)
    } else if t == 8 {
        Some("ServerAuthz"@)
    } else if t == 9 {
        Some("CertType"@)
    } else if t == 10 {
        Some("SupportedGroups"@)
    } else if t == 11 {
        Some("EcPointFormats"@)
    } else if t == 12 {
        Some("Srp"@)
    } else if t == 13 {
        Some("SignatureAlgorithms"@)
    } else if t == 14 {
        Some("UseSrtp"@)
    } else if t == 15 {
        Some("Heartbeat"@)
    } else if t == 16 {
        Some("ApplicationLayerProtocolNegotiation"@)
    } else if t == 17 {
        Some("StatusRequestv2"@)
    } else if t == 18 {
        Some("SignedCertificateTimestamp"@)
    } else if t == 19 {
        Some("ClientCertificateType"@)
    } else if t == 20 {
        Some("ServerCertificateType"@)
    } else if t == 21 {
        Some("Padding"@)
    } else if t == 22 {
        Some("EncryptThenMac"@)
    } else if t == 23 {
        Some("ExtendedMasterSecret"@)
    } else if t == 24 {
        Some("TokenBinding"@)
    } else if t == 25 {
        Some("CachedInfo"@)
    } else if t == 27 {
        Some("CompressCertificate"@)
    } else if t == 28 {
        Some("RecordSizeLimit"@)
    } else if t == 29 {
        Some("PwdProtect"@)
    } else if t == 30 {
        Some("PwdClear"@)
    } else if t == 31 {
        Some("PasswordSalt"@)
    } else if t == 32 {
        Some("TicketPinning"@)
    } else if t == 33 {
        Some("TlsCertWithExternPsk"@)
    } else if t == 34 {
        Some("DelegatedCredentials"@)
    } else if t == 35 {
        Some("SessionTicketTLS"@)
    } else if t == 36 {
        Some("Tlmsp"@)
    } else if t == 37 {
        Some("TlmspProxying"@)
    } else if t == 38 {
        Some("TlmspDelegate"@)
    } else if t == 39 {
        Some("SupportedEktCiphers"@)
    } else if t == 40 {
        Some("KeyShareOld"@)
    } else if t == 41 {
        Some("PreSharedKey"@)
    } else if t == 42 {
        Some("EarlyData"@)
    } else if t == 43 {
        Some("SupportedVersions"@)
    } else if t == 44 {
        Some("Cookie"@)
    } else if t == 45 {
        Some("PskExchangeModes"@)
    } else if t == 46 {
        Some("TicketEarlyDataInfo"@)
    } else if t == 47 {
        Some("CertificateAuthorities"@)
    } else if t == 48 {
        Some("OidFilters"@)
    } else if t == 49 {
        Some("PostHandshakeAuth"@)
    } else if t == 50 {
        Some("SigAlgorithmsCert"@)
    } else if t == 51 {
        Some("KeyShare"@)
    } else if t == 52 {
        Some("TransparencyInfo"@)
    } else if t == 53 {
        Some("ConnectionIdOld"@)
    } else if t == 54 {
        Some("ConnectionId"@)
    } else if t == 55 {
        Some("ExternalIdHash"@)
    } else if t == 56 {
        Some("ExternalSessionId"@)
    } else if t == 57 {
        Some("QuicTransportParameters"@)
    } else if t == 58 {
        Some("TicketRequest"@)
    } else if t == 13172 {
        Some("NextProtocolNegotiation"@)
    } else if t == 64250 {
        Some("Grease"@)
    } else if t == 65281 {
        Some("RenegotiationInfo"@)
    } else if t == 65037 {
        Some("EncryptedClientHello"@)
    } else if t == 65486 {
        Some("EncryptedServerName"@)
    } else {
        None
    }
}

/// The text of an extension type.
pub open spec fn extension_type_text(t: u16) -> Seq<char> {
    match extension_prefix(t) {
        Some(name) => name,
        None => numbered_name("TlsExtensionType"@, t as nat),
    }
}

/// The text of a server name type.
pub open spec fn sni_type_text(t: u8) -> Seq<char> {
    if t == 0 {
        "HostName"@
    } else {
        numbered_name("SNIType"@, t as nat)
    }
}

/// The text of a certificate status type.
pub open spec fn certificate_status_type_text(t: u8) -> Seq<char> {
    if t == 1 {
        "OCSP"@
    } else {
        numbered_name("CertificateStatusType"@, t as nat)
    }
}

/// A one-character string holding the digit `d`.
fn digit_str(d: u64) -> (res: &'static str)
    requires
        d < 16,
    ensures
        res@ == seq![digit_char(d as nat)],
{
    proof {
        reveal_strlit("0");
        reveal_strlit("1");
        reveal_strlit("2");
        reveal_strlit("3");
        reveal_strlit("4");
        reveal_strlit("5");
        reveal_strlit("6");
        reveal_strlit("7");
        reveal_strlit("8");
        reveal_strlit("9");
        reveal_strlit("a");
        reveal_strlit("b");
        reveal_strlit("c");
        reveal_strlit("d");
        reveal_strlit("e");
        reveal_strlit("f");
    }
    if d == 0 {
        "0"
    } else if d == 1 {
        "1"
    } else if d == 2 {
        "2"
    } else if d == 3 {
        "3"
    } else if d == 4 {
        "4"
    } else if d == 5 {
        "5"
    } else if d == 6 {
        "6"
    } else if d == 7 {
        "7"
    } else if d == 8 {
        "8"
    } else if d == 9 {
        "9"
    } else if d == 10 {
        "a"
    } else if d == 11 {
        "b"
    } else if d == 12 {
        "c"
    } else if d == 13 {
        "d"
    } else if d == 14 {
        "e"
    } else {
        "f"
    }
}

/// Appends the digits of `n` in base `base`.
fn push_digits(s: &mut String, n: u64, base: u64)
    requires
        2 <= base <= 16,
    ensures
        final(s)@ == old(s)@ + digits(n as nat, base as nat),
    decreases n,
{
    if n >= base {
        assert(n / base < n) by (nonlinear_arith)
            requires
                n >= base,
                base >= 2,
        ;
        push_digits(s, n / base, base);
    }
    assert(n % base < base) by (nonlinear_arith)
        requires
            base >= 2,
    ;
    let d = digit_str(n % base);
    s.append(d);
    proof {
        if n < base {
            assert(n % base == n) by (nonlinear_arith)
                requires
                    n < base,
                    base >= 2,
            ;
        }
    }
    assert(s@ =~= old(s)@ + digits(n as nat, base as nat));
}

/// The text of a code point without a registered name.
fn numbered(prefix: &str, n: u64) -> (res: String)
    ensures
        res@ == numbered_name(prefix@, n as nat),
{
    let mut s = String::from_str(prefix);
    proof {
        reveal_strlit("(");
        reveal_strlit(" / 0x");
        reveal_strlit(")");
    }
    s.append("(");
    push_digits(&mut s, n, 10);
    s.append(" / 0x");
    push_digits(&mut s, n, 16);
    s.append(")");
    assert(s@ =~= numbered_name(prefix@, n as nat));
    s
}

/// The registered name of an extension type.
fn extension_prefix_str(t: u16) -> (res: Option<&'static str>)
    ensures
        match res {
            Some(name) => extension_prefix(t) == Some(name@),
            None => extension_prefix(t) is None,
        },
{
    match t {
        0 => Some("ServerName"),
        1 => Some("MaxFragmentLength"),
        2 => Some("ClientCertificate"),
        3 => Some("TrustedCaKeys"),
        4 => Some("TruncatedHMac"),
        5 => Some("StatusRequest"),
        6 => Some("UserMapping"),
        7 => Some("ClientAuthz"),
        8 => Some("ServerAuthz"),
        9 => Some("CertType"),
        10 => Some("SupportedGroups"),
        11 => Some("EcPointFormats"),
        12 => Some("Srp"),
        13 => Some("SignatureAlgorithms"),
        14 => Some("UseSrtp"),
        15 => Some("Heartbeat"),
        16 => Some("ApplicationLayerProtocolNegotiation"),
        17 => Some("StatusRequestv2"),
        18 => Some("SignedCertificateTimestamp"),
        19 => Some("ClientCertificateType"),
        20 => Some("ServerCertificateType"),
        21 => Some("Padding"),
        22 => Some("EncryptThenMac"),
        23 => Some("ExtendedMasterSecret"),
        24 => Some("TokenBinding"),
        25 => Some("CachedInfo"),
        27 => Some("CompressCertificate"),
        28 => Some("RecordSizeLimit"),
        29 => Some("PwdProtect"),
        30 => Some("PwdClear"),
        31 => Some("PasswordSalt"),
        32 => Some("TicketPinning"),
        33 => Some("TlsCertWithExternPsk"),
        34 => Some("DelegatedCredentials"),
        35 => Some("SessionTicketTLS"),
        36 => Some("Tlmsp"),
        37 => Some("TlmspProxying"),
        38 => Some("TlmspDelegate"),
        39 => Some("SupportedEktCiphers"),
        40 => Some("KeyShareOld"),
        41 => Some("PreSharedKey"),
        42 => Some("EarlyData"),
        43 => Some("SupportedVersions"),
        44 => Some("Cookie"),
        45 => Some("PskExchangeModes"),
        46 => Some("TicketEarlyDataInfo"),
        47 => Some("CertificateAuthorities"),
        48 => Some("OidFilters"),
        49 => Some("PostHandshakeAuth"),
        50 => Some("SigAlgorithmsCert"),
        51 => Some("KeyShare"),
        52 => Some("TransparencyInfo"),
        53 => Some("ConnectionIdOld"),
        54 => Some("ConnectionId"),
        55 => Some("ExternalIdHash"),
        56 => Some("ExternalSessionId"),
        57 => Some("QuicTransportParameters"),
        58 => Some("TicketRequest"),
        13172 => Some("NextProtocolNegotiation"),
        64250 => Some("Grease"),
        65281 => Some("RenegotiationInfo"),
        65037 => Some("EncryptedClientHello"),
        65486 => Some("EncryptedServerName"),
        _ => None,
    }
}

impl TlsExtensionType {
    /// The registered name of the type, or `TlsExtensionType(n / 0xhex)`.
    pub fn to_string(&self) -> (res: String)
        ensures
            res@ == extension_type_text(self.0),
    {
        match extension_prefix_str(self.0) {
            Some(name) => String::from_str(name),
            None => numbered("TlsExtensionType", self.0 as u64),
        }
    }
}

impl SNIType {
    /// `HostName`, or `SNIType(n / 0xhex)`.
    pub fn to_string(&self) -> (res: String)
        ensures
            res@ == sni_type_text(self.0),
    {
        if self.0 == 0 {
            String::from_str("HostName")
        } else {
            numbered("SNIType", self.0 as u64)
        }
    }
}

impl CertificateStatusType {
    /// `OCSP`, or `CertificateStatusType(n / 0xhex)`.
    pub fn to_string(&self) -> (res: String)
        ensures
            res@ == certificate_status_type_text(self.0),
    {
        if self.0 == 1 {
            String::from_str("OCSP")
        } else {
            numbered("CertificateStatusType", self.0 as u64)
        }
    }
}

/// Each named extension type reads as its own name (of the two names for
/// 58, the first registered, `TicketRequest`); the named server name and
/// certificate status types likewise.
pub proof fn law_named_constants_read_as_their_names()
    ensures
        extension_type_text(TlsExtensionType::ServerName().0) == "ServerName"@,
        extension_type_text(TlsExtensionType::MaxFragmentLength().0) == "MaxFragmentLength"@,
        extension_type_text(TlsExtensionType::ClientCertificate().0) == "ClientCertificate"@,
        extension_type_text(TlsExtensionType::TrustedCaKeys().0) == "TrustedCaKeys"@,
        extension_type_text(TlsExtensionType::TruncatedHMac().0) == "TruncatedHMac"@,
        extension_type_text(TlsExtensionType::StatusRequest().0) == "StatusRequest"@,
        extension_type_text(TlsExtensionType::UserMapping().0) == "UserMapping"@,
        extension_type_text(TlsExtensionType::ClientAuthz().0) == "ClientAuthz"@,
        extension_type_text(TlsExtensionType::ServerAuthz().0) == "ServerAuthz"@,
        extension_type_text(TlsExtensionType::CertType().0) == "CertType"@,
        extension_type_text(TlsExtensionType::SupportedGroups().0) == "SupportedGroups"@,
        extension_type_text(TlsExtensionType::EcPointFormats().0) == "EcPointFormats"@,
        extension_type_text(TlsExtensionType::Srp().0) == "Srp"@,
        extension_type_text(TlsExtensionType::SignatureAlgorithms().0) == "SignatureAlgorithms"@,
        extension_type_text(TlsExtensionType::UseSrtp().0) == "UseSrtp"@,
        extension_type_text(TlsExtensionType::Heartbeat().0) == "Heartbeat"@,
        extension_type_text(TlsExtensionType::ApplicationLayerProtocolNegotiation().0) == "ApplicationLayerProtocolNegotiation"@,
        extension_type_text(TlsExtensionType::StatusRequestv2().0) == "StatusRequestv2"@,
        extension_type_text(TlsExtensionType::SignedCertificateTimestamp().0) == "SignedCertificateTimestamp"@,
        extension_type_text(TlsExtensionType::ClientCertificateType().0) == "ClientCertificateType"@,
        extension_type_text(TlsExtensionType::ServerCertificateType().0) == "ServerCertificateType"@,
        extension_type_text(TlsExtensionType::Padding().0) == "Padding"@,
        extension_type_text(TlsExtensionType::EncryptThenMac().0) == "EncryptThenMac"@,
        extension_type_text(TlsExtensionType::ExtendedMasterSecret().0) == "ExtendedMasterSecret"@,
        extension_type_text(TlsExtensionType::TokenBinding().0) == "TokenBinding"@,
        extension_type_text(TlsExtensionType::CachedInfo().0) == "CachedInfo"@,
        extension_type_text(TlsExtensionType::CompressCertificate().0) == "CompressCertificate"@,
        extension_type_text(TlsExtensionType::RecordSizeLimit().0) == "RecordSizeLimit"@,
        extension_type_text(TlsExtensionType::PwdProtect().0) == "PwdProtect"@,
        extension_type_text(TlsExtensionType::PwdClear().0) == "PwdClear"@,
        extension_type_text(TlsExtensionType::PasswordSalt().0) == "PasswordSalt"@,
        extension_type_text(TlsExtensionType::TicketPinning().0) == "TicketPinning"@,
        extension_type_text(TlsExtensionType::TlsCertWithExternPsk().0) == "TlsCertWithExternPsk"@,
        extension_type_text(TlsExtensionType::DelegatedCredentials().0) == "DelegatedCredentials"@,
        extension_type_text(TlsExtensionType::SessionTicketTLS().0) == "SessionTicketTLS"@,
        extension_type_text(TlsExtensionType::Tlmsp().0) == "Tlmsp"@,
        extension_type_text(TlsExtensionType::TlmspProxying().0) == "TlmspProxying"@,
        extension_type_text(TlsExtensionType::TlmspDelegate().0) == "TlmspDelegate"@,
        extension_type_text(TlsExtensionType::SupportedEktCiphers().0) == "SupportedEktCiphers"@,
        extension_type_text(TlsExtensionType::KeyShareOld().0) == "KeyShareOld"@,
        extension_type_text(TlsExtensionType::PreSharedKey().0) == "PreSharedKey"@,
        extension_type_text(TlsExtensionType::EarlyData().0) == "EarlyData"@,
        extension_type_text(TlsExtensionType::SupportedVersions().0) == "SupportedVersions"@,
        extension_type_text(TlsExtensionType::Cookie().0) == "Cookie"@,
        extension_type_text(TlsExtensionType::PskExchangeModes().0) == "PskExchangeModes"@,
        extension_type_text(TlsExtensionType::TicketEarlyDataInfo().0) == "TicketEarlyDataInfo"@,
        extension_type_text(TlsExtensionType::CertificateAuthorities().0) == "CertificateAuthorities"@,
        extension_type_text(TlsExtensionType::OidFilters().0) == "OidFilters"@,
        extension_type_text(TlsExtensionType::PostHandshakeAuth().0) == "PostHandshakeAuth"@,
        extension_type_text(TlsExtensionType::SigAlgorithmsCert().0) == "SigAlgorithmsCert"@,
        extension_type_text(TlsExtensionType::KeyShare().0) == "KeyShare"@,
        extension_type_text(TlsExtensionType::TransparencyInfo().0) == "TransparencyInfo"@,
        extension_type_text(TlsExtensionType::ConnectionIdOld().0) == "ConnectionIdOld"@,
        extension_type_text(TlsExtensionType::ConnectionId().0) == "ConnectionId"@,
        extension_type_text(TlsExtensionType::ExternalIdHash().0) == "ExternalIdHash"@,
        extension_type_text(TlsExtensionType::ExternalSessionId().0) == "ExternalSessionId"@,
        extension_type_text(TlsExtensionType::QuicTransportParameters().0) == "QuicTransportParameters"@,
        extension_type_text(TlsExtensionType::TicketRequest().0) == "TicketRequest"@,
        extension_type_text(TlsExtensionType::DnssecChain().0) == "TicketRequest"@,
        extension_type_text(TlsExtensionType::NextProtocolNegotiation().0) == "NextProtocolNegotiation"@,
        extension_type_text(TlsExtensionType::Grease().0) == "Grease"@,
        extension_type_text(TlsExtensionType::RenegotiationInfo().0) == "RenegotiationInfo"@,
        extension_type_text(TlsExtensionType::EncryptedClientHello().0) == "EncryptedClientHello"@,
        extension_type_text(TlsExtensionType::EncryptedServerName().0) == "EncryptedServerName"@,
        sni_type_text(SNIType::HostName().0) == "HostName"@,
        certificate_status_type_text(CertificateStatusType::OCSP().0) == "OCSP"@,
{
}

/// The value of a digit character: `0` to `9`, then `a` to `f`.
pub open spec fn digit_value(c: char) -> int {
    if '0' <= c && c <= '9' {
        c as int - '0' as int
    } else {
        c as int - 'a' as int + 10
    }
}

/// The number that a string of digits denotes in base `base`.
pub open spec fn read_digits(cs: Seq<char>, base: nat) -> int
    decreases cs.len(),
{
    if cs.len() == 0 {
        0
    } else {
        read_digits(cs.drop_last(), base) * base + digit_value(cs.last())
    }
}

/// The digits of a number read back as that number; each is a digit of the
/// base, and the first is zero only for zero itself.
pub proof fn law_digits_read_back(n: nat, base: nat)
    requires
        2 <= base <= 16,
    ensures
        read_digits(digits(n, base), base) == n,
        forall|k: int| 0 <= k < digits(n, base).len() ==> 0 <= #[trigger] digit_value(digits(n, base)[k]) < base,
        digits(n, base)[0] == '0' ==> n == 0,
    decreases n,
{
    if n < base {
        assert(digits(n, base) =~= seq![digit_char(n)]);
        assert(seq![digit_char(n)].drop_last() =~= Seq::<char>::empty());
        assert(digit_value(digit_char(n)) == n);
        assert(read_digits(digits(n, base), base) == read_digits(Seq::<char>::empty(), base) * base
            + digit_value(digit_char(n)));
    } else {
        assert(n / base < n) by (nonlinear_arith)
            requires
                n >= base,
                base >= 2,
        ;
        law_digits_read_back(n / base, base);
        let d = digits(n, base);
        let h = digits(n / base, base);
        assert(d == h.push(digit_char(n % base)));
        assert(d.drop_last() =~= h);
        assert(n / base * base + n % base == n) by (nonlinear_arith)
            requires
                base >= 2,
        ;
        assert(n % base < base) by (nonlinear_arith)
            requires
                base >= 2,
        ;
        assert(n / base > 0) by (nonlinear_arith)
            requires
                n >= base,
                base >= 2,
        ;
        assert(digit_value(digit_char(n % base)) == n % base);
        assert(d.last() == digit_char(n % base));
        assert(read_digits(d, base) == read_digits(h, base) * base + digit_value(d.last()));
        assert(read_digits(h, base) * base == (n / base) * base);
        assert(h.len() > 0);
        assert(d[0] == h[0]);
        assert forall|k: int| 0 <= k < d.len() implies 0 <= #[trigger] digit_value(d[k]) < base by {
            if k < h.len() {
                assert(d[k] == h[k]);
            }
        }
    }
}

} // verus!
