//! Code points shared with the rest of the TLS handshake: named groups,
//! protocol versions, cipher suites and signature schemes, with the list
//! parsers that extensions use.
use vstd::prelude::*;
use crate::error::{ErrorKind, ParseError, SpecParseError, IResult, SpecResult, res_view};
use crate::combinator::{be16, spec_be_u16, be_u16};

verus! {

/// A named group (elliptic curve or finite field group), RFC 8446 / RFC 7919.
#[derive(Clone, Copy, Debug, PartialEq, Eq, Hash, Structural)]
pub struct NamedGroup(pub u16);

/// A TLS protocol version.
#[derive(Clone, Copy, Debug, PartialEq, Eq, Hash, Structural)]
pub struct TlsVersion(pub u16);

/// A cipher suite identifier.
#[derive(Clone, Copy, Debug, PartialEq, Eq, Hash, Structural)]
pub struct TlsCipherSuiteID(pub u16);

/// A signature scheme, RFC 8446.
#[derive(Clone, Copy, Debug, PartialEq, Eq, Hash, Structural)]
pub struct SignatureScheme(pub u16);

impl View for NamedGroup {
    type V = NamedGroup;

    open spec fn view(&self) -> NamedGroup {
        *self
    }
}

impl View for TlsVersion {
    type V = TlsVersion;

    open spec fn view(&self) -> TlsVersion {
        *self
    }
}

impl View for TlsCipherSuiteID {
    type V = TlsCipherSuiteID;

    open spec fn view(&self) -> TlsCipherSuiteID {
        *self
    }
}

impl View for SignatureScheme {
    type V = SignatureScheme;

    open spec fn view(&self) -> SignatureScheme {
        *self
    }
}

/// The 16-bit big-endian values in `s`, pair by pair.
pub open spec fn u16_list(s: Seq<u8>) -> Seq<u16> {
    Seq::new(s.len() / 2, |k: int| be16(s[2 * k], s[2 * k + 1]))
}

/// A list of named groups filling the whole input: empty input gives the
/// empty list, an odd length is an error.
pub open spec fn spec_parse_named_groups(s: Seq<u8>) -> SpecResult<Seq<NamedGroup>> {
    if s.len() == 0 {
        Ok((s, Seq::empty()))
    } else if s.len() % 2 == 1 {
        Err(SpecParseError::Error { input: s, code: ErrorKind::LengthValue })
    } else {
        Ok((Seq::empty(), u16_list(s).map_values(|x: u16| NamedGroup(x))))
    }
}

/// A list of protocol versions filling the whole input: empty input gives
/// the empty list, an odd length or more than 254 bytes is an error.
pub open spec fn spec_parse_tls_versions(s: Seq<u8>) -> SpecResult<Seq<TlsVersion>> {
    if s.len() == 0 {
        Ok((s, Seq::empty()))
    } else if s.len() % 2 == 1 || s.len() > 254 {
        Err(SpecParseError::Error { input: s, code: ErrorKind::LengthValue })
    } else {
        Ok((Seq::empty(), u16_list(s).map_values(|x: u16| TlsVersion(x))))
    }
}

/// One signature scheme.
pub open spec fn spec_parse_signature_scheme(s: Seq<u8>) -> SpecResult<SignatureScheme> {
    match spec_be_u16(s) {
        Err(e) => Err(e),
        Ok((r, v)) => Ok((r, SignatureScheme(v))),
    }
}

/// One named group.
pub open spec fn spec_parse_named_group(s: Seq<u8>) -> SpecResult<NamedGroup> {
    match spec_be_u16(s) {
        Err(e) => Err(e),
        Ok((r, v)) => Ok((r, NamedGroup(v))),
    }
}

/// The 16-bit values of an even-length input, in order.
fn read_u16_list(i: &[u8]) -> (res: Vec<u16>)
    requires
        i@.len() % 2 == 0,
    ensures
        res@ == u16_list(i@),
{
    let mut v: Vec<u16> = Vec::new();
    let mut k: usize = 0;
    let len: usize = i.len();
    let n: usize = len / 2;
    while k < n
        invariant
            len == i@.len(),
            n == i@.len() / 2,
            i@.len() % 2 == 0,
            k <= n,
            v@ == u16_list(i@).take(k as int),
        decreases n - k,
    {
        assert(2 * k + 1 < i@.len());
        let x: u16 = (i[2 * k] as u16) * 256 + (i[2 * k + 1] as u16);
        v.push(x);
        k = k + 1;
    }
    assert(u16_list(i@).take(n as int) == u16_list(i@));
    v
}

/// Parses a list of named groups that fills the input.
pub fn parse_named_groups<'a>(i: &'a [u8]) -> (res: IResult<'a, Vec<NamedGroup>>)
    ensures
        res_view(res) == spec_parse_named_groups(i@),
{
    let len = i.len();
    if len == 0 {
        return Ok((i, Vec::new()));
    }
    if len % 2 == 1 {
        return Err(ParseError::Error { input: i, code: ErrorKind::LengthValue });
    }
    let raw = read_u16_list(i);
    let mut v: Vec<NamedGroup> = Vec::new();
    let mut k: usize = 0;
    while k < raw.len()
        invariant
            k <= raw@.len(),
            v@ == raw@.take(k as int).map_values(|x: u16| NamedGroup(x)),
        decreases raw@.len() - k,
    {
        v.push(NamedGroup(raw[k]));
        k = k + 1;
        assert(v@ == raw@.take(k as int).map_values(|x: u16| NamedGroup(x)));
    }
    assert(raw@.take(k as int) == raw@);
    Ok((slice_subrange_end(i), v))
}

/// Parses a list of protocol versions that fills the input.
pub fn parse_tls_versions<'a>(i: &'a [u8]) -> (res: IResult<'a, Vec<TlsVersion>>)
    ensures
        res_view(res) == spec_parse_tls_versions(i@),
{
    let len = i.len();
    if len == 0 {
        return Ok((i, Vec::new()));
    }
    if len % 2 == 1 || len > 254 {
        return Err(ParseError::Error { input: i, code: ErrorKind::LengthValue });
    }
    let raw = read_u16_list(i);
    let mut v: Vec<TlsVersion> = Vec::new();
    let mut k: usize = 0;
    while k < raw.len()
        invariant
            k <= raw@.len(),
            v@ == raw@.take(k as int).map_values(|x: u16| TlsVersion(x)),
        decreases raw@.len() - k,
    {
        v.push(TlsVersion(raw[k]));
        k = k + 1;
        assert(v@ == raw@.take(k as int).map_values(|x: u16| TlsVersion(x)));
    }
    assert(raw@.take(k as int) == raw@);
    Ok((slice_subrange_end(i), v))
}

/// The empty tail of `i`.
fn slice_subrange_end<'a>(i: &'a [u8]) -> (res: &'a [u8])
    ensures
        res@ == Seq::<u8>::empty(),
{
    vstd::slice::slice_subrange(i, i.len(), i.len())
}

impl SignatureScheme {
    /// Parses one signature scheme.
    pub fn parse<'a>(i: &'a [u8]) -> (res: IResult<'a, SignatureScheme>)
        ensures
            res_view(res) == spec_parse_signature_scheme(i@),
    {
        let (r, v) = be_u16(i)?;
        Ok((r, SignatureScheme(v)))
    }
}

impl NamedGroup {
    /// Parses one named group.
    pub fn parse<'a>(i: &'a [u8]) -> (res: IResult<'a, NamedGroup>)
        ensures
            res_view(res) == spec_parse_named_group(i@),
    {
        let (r, v) = be_u16(i)?;
        Ok((r, NamedGroup(v)))
    }
}

} // verus!
