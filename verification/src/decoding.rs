//! What the parsers give on the wire encoding of known values: each law
//! builds the bytes of an extension from its values, independently of the
//! parsers, and states that parsing them gives back those values.
use vstd::prelude::*;
use crate::error::{SpecParseError, SpecResult};
use crate::combinator::{spec_many0_complete, value_of};
use crate::grammar::{
    Context, is_grease, keyshare_entry_fn, sni_hostname_fn, spec_parse_tls_extension_sni_hostname,
    spec_parse_tls_extension_sni_content, spec_parse_tls_extension_supported_groups_content,
    spec_parse_tls_extension_encrypted_client_hello, spec_parse_tls_extension_encrypted_server_name,
    protocol_name_fn, signature_scheme_fn, oid_filter_fn,
    spec_parse_protocol_name, spec_parse_tls_oid_filter, spec_parse_tls_extension_alpn_content,
    spec_parse_tls_extension_signature_algorithms_content, spec_parse_tls_extension_oid_filters, spec_extension, spec_extension_content,
    spec_parse_keyshare_entry, spec_parse_tls_extension_client_shares_content,
    spec_parse_tls_extension_record_size_limit,
    spec_parse_tls_extension_supported_versions_content, spec_parse_tls_extension_early_data_content,
};
use crate::laws::lemma_small_types_not_grease;
use crate::tls_extensions::{
    CertificateStatusType, SNIType, SpecKeyShareEntry, SpecOidFilter, SpecTlsExtension,
};
use crate::tls_common::{NamedGroup, TlsCipherSuiteID, SignatureScheme, TlsVersion, spec_parse_signature_scheme, u16_list};

verus! {

/// The big-endian bytes of a 16-bit value.
pub open spec fn u16_bytes(x: u16) -> Seq<u8> {
    seq![(x / 256) as u8, (x % 256) as u8]
}

/// The wire form of a key share entry: group, two-byte length, data.
pub open spec fn key_share_entry_bytes(e: SpecKeyShareEntry) -> Seq<u8> {
    u16_bytes(e.group.0) + u16_bytes(e.kx.len() as u16) + e.kx
}

/// The wire form of key share entries, one after another.
pub open spec fn key_shares_bytes(es: Seq<SpecKeyShareEntry>) -> Seq<u8> {
    concat_map(es, |e: SpecKeyShareEntry| key_share_entry_bytes(e))
}

/// Every entry's data fits a two-byte length.
pub open spec fn key_shares_fit(es: Seq<SpecKeyShareEntry>) -> bool {
    forall|k: int| 0 <= k < es.len() ==> #[trigger] es[k].kx.len() < 65536
}

/// Parsing the wire form of an entry gives the entry back and leaves what
/// follows.
proof fn lemma_key_share_entry_roundtrip(e: SpecKeyShareEntry, rest: Seq<u8>)
    requires
        e.kx.len() < 65536,
    ensures
        spec_parse_keyshare_entry(key_share_entry_bytes(e) + rest) == Ok::<_, SpecParseError>(
            (rest, e),
        ),
{
    let b = key_share_entry_bytes(e) + rest;
    let n = e.kx.len();
    assert(b[0] == (e.group.0 / 256) as u8 && b[1] == (e.group.0 % 256) as u8);
    assert(b[2] == ((n as u16) / 256) as u8 && b[3] == ((n as u16) % 256) as u8);
    assert(b.skip(2).skip(2).take(n as int) =~= e.kx);
    assert(b.skip(2).skip(2).skip(n as int) =~= rest);
    assert(b.skip(2)[0] == b[2] && b.skip(2)[1] == b[3]);
}

/// Repeating the entry parser over the wire form of entries gives all the
/// entries, in order.
proof fn lemma_key_shares_roundtrip(es: Seq<SpecKeyShareEntry>)
    requires
        key_shares_fit(es),
    ensures
        spec_many0_complete(keyshare_entry_fn(), key_shares_bytes(es)) == Ok::<_, SpecParseError>(
            (Seq::<u8>::empty(), es),
        ),
{
    let enc = |e: SpecKeyShareEntry| key_share_entry_bytes(e);
    assert forall|k: int, rest: Seq<u8>| 0 <= k < es.len() implies #[trigger] keyshare_entry_fn()(
        enc(es[k]) + rest,
    ) == Ok::<_, SpecParseError>((rest, es[k])) by {
        lemma_key_share_entry_roundtrip(es[k], rest);
    }
    assert(keyshare_entry_fn()(Seq::empty()) is Err);
    lemma_many0_roundtrip(keyshare_entry_fn(), enc, es);
}

/// The key share content of a client hello is every entry of its list, in
/// order: the wire form of any entries behind a two-byte list length parses
/// to exactly those entries.
pub proof fn law_client_key_shares_content(es: Seq<SpecKeyShareEntry>, tail: Seq<u8>)
    requires
        key_shares_fit(es),
        key_shares_bytes(es).len() < 65536,
    ensures
        spec_parse_tls_extension_client_shares_content(
            u16_bytes(key_shares_bytes(es).len() as u16) + key_shares_bytes(es) + tail,
        ) == Ok::<_, SpecParseError>((tail, SpecTlsExtension::KeyShare(es))),
{
    let kb = key_shares_bytes(es);
    let m = kb.len();
    let s = u16_bytes(m as u16) + kb + tail;
    lemma_key_shares_roundtrip(es);
    assert(s[0] == ((m as u16) / 256) as u8 && s[1] == ((m as u16) % 256) as u8);
    assert(s.skip(2).take(m as int) =~= kb);
    assert(s.skip(2).skip(m as int) =~= tail);
}

/// The wire form of an extension: type, two-byte length, data.
pub open spec fn ext_bytes(t: u16, data: Seq<u8>) -> Seq<u8> {
    u16_bytes(t) + u16_bytes(data.len() as u16) + data
}

/// The wire form of a list of protocol versions, two bytes each.
pub open spec fn versions_bytes(vs: Seq<TlsVersion>) -> Seq<u8> {
    Seq::new(
        2 * vs.len(),
        |i: int|
            if i % 2 == 0 {
                (vs[i / 2].0 / 256) as u8
            } else {
                (vs[i / 2].0 % 256) as u8
            },
    )
}

/// A non-GREASE extension in wire form is read by the content parser of its
/// type on exactly its data, and leaves what follows.
#[verifier::rlimit(40)]
proof fn lemma_ext_bytes(ctx: Context, t: u16, data: Seq<u8>, tail: Seq<u8>)
    requires
        data.len() < 65536,
        !is_grease(t),
    ensures
        spec_extension(ctx, ext_bytes(t, data) + tail) == (match spec_extension_content(
            ctx,
            t,
            data,
        ) {
            Ok(e) => Ok((tail, e)),
            Err(e) => Err(e),
        }),
{
    let s = ext_bytes(t, data) + tail;
    let n = data.len();
    assert(s[0] == (t / 256) as u8 && s[1] == (t % 256) as u8);
    assert(s.skip(2)[0] == ((n as u16) / 256) as u8 && s.skip(2)[1] == ((n as u16) % 256) as u8);
    assert(s.skip(2).skip(2).take(n as int) =~= data);
    assert(s.skip(2).skip(2).skip(n as int) =~= tail);
}

/// A client hello's key share extension gives every share of its list, in
/// order.
pub proof fn law_client_hello_key_shares(es: Seq<SpecKeyShareEntry>, tail: Seq<u8>)
    requires
        key_shares_fit(es),
        key_shares_bytes(es).len() + 2 < 65536,
    ensures
        spec_extension(
            Context::ClientHello,
            ext_bytes(51, u16_bytes(key_shares_bytes(es).len() as u16) + key_shares_bytes(es)) + tail,
        ) == Ok::<_, SpecParseError>((tail, SpecTlsExtension::KeyShare(es))),
{
    let content = u16_bytes(key_shares_bytes(es).len() as u16) + key_shares_bytes(es);
    law_client_key_shares_content(es, Seq::empty());
    assert(content + Seq::<u8>::empty() =~= content);
    lemma_small_types_not_grease();
    lemma_ext_bytes(Context::ClientHello, 51, content, tail);
}

/// The supported versions extension with two bytes of data (a server's
/// selected version) gives that one version, in every table.
pub proof fn law_selected_version(ctx: Context, v: TlsVersion, tail: Seq<u8>)
    ensures
        spec_extension(ctx, ext_bytes(43, u16_bytes(v.0)) + tail) == Ok::<_, SpecParseError>(
            (tail, SpecTlsExtension::SupportedVersions(seq![v])),
        ),
{
    let d = u16_bytes(v.0);
    lemma_small_types_not_grease();
    lemma_ext_bytes(ctx, 43, d, tail);
    assert(d.skip(2) =~= Seq::<u8>::empty());
}

/// The versions content of a client (a length byte and the list) gives the
/// list.
proof fn lemma_offered_versions_content(vs: Seq<TlsVersion>)
    requires
        vs.len() <= 127,
    ensures
        spec_parse_tls_extension_supported_versions_content(
            seq![(2 * vs.len()) as u8] + versions_bytes(vs),
            (1 + 2 * vs.len()) as u16,
        ) == Ok::<_, SpecParseError>(
            (Seq::<u8>::empty(), SpecTlsExtension::SupportedVersions(vs)),
        ),
{
    let vb = versions_bytes(vs);
    let d = seq![(2 * vs.len()) as u8] + vb;
    assert(d.skip(1) =~= vb);
    assert(vb.take(vb.len() as int) =~= vb);
    assert(vb.skip(vb.len() as int) =~= Seq::<u8>::empty());
    assert(u16_list(vb).map_values(|x: u16| TlsVersion(x)) =~= vs) by {
        assert forall|k: int| 0 <= k < vs.len() implies u16_list(vb).map_values(
            |x: u16| TlsVersion(x),
        )[k] == vs[k] by {
            assert(vb[2 * k] == (vs[k].0 / 256) as u8);
            assert(vb[2 * k + 1] == (vs[k].0 % 256) as u8);
        }
    }
    if vs.len() == 0 {
        assert(vs =~= Seq::<TlsVersion>::empty());
    }
}

/// The supported versions extension of a client (a length byte and a list
/// of up to 127 versions) gives that list, in every table.
pub proof fn law_offered_versions(ctx: Context, vs: Seq<TlsVersion>, tail: Seq<u8>)
    requires
        vs.len() <= 127,
    ensures
        spec_extension(
            ctx,
            ext_bytes(43, seq![(2 * vs.len()) as u8] + versions_bytes(vs)) + tail,
        ) == Ok::<_, SpecParseError>((tail, SpecTlsExtension::SupportedVersions(vs))),
{
    let d = seq![(2 * vs.len()) as u8] + versions_bytes(vs);
    lemma_small_types_not_grease();
    lemma_offered_versions_content(vs);
    assert(d.len() == 1 + 2 * vs.len());
    lemma_ext_bytes(ctx, 43, d, tail);
}

/// The record size limit content is the big-endian value of its first two
/// bytes; less than two bytes asks for the missing ones.
pub proof fn law_record_size_limit_content(s: Seq<u8>)
    ensures
        s.len() >= 2 ==> spec_parse_tls_extension_record_size_limit(s) == Ok::<_, SpecParseError>(
            (s.skip(2), SpecTlsExtension::RecordSizeLimit((s[0] as int * 256 + s[1] as int) as u16)),
        ),
        s.len() < 2 ==> spec_parse_tls_extension_record_size_limit(s) == Err::<
            (Seq<u8>, SpecTlsExtension),
            _,
        >(SpecParseError::Incomplete((2 - s.len()) as usize)),
{
}

/// A record size limit extension gives the big-endian value of its first
/// two data bytes, in every table.
pub proof fn law_record_size_limit(ctx: Context, a: u8, b: u8, more: Seq<u8>, tail: Seq<u8>)
    requires
        more.len() + 2 < 65536,
    ensures
        spec_extension(ctx, ext_bytes(28, seq![a, b] + more) + tail) == Ok::<_, SpecParseError>(
            (tail, SpecTlsExtension::RecordSizeLimit((a as int * 256 + b as int) as u16)),
        ),
{
    lemma_small_types_not_grease();
    lemma_ext_bytes(ctx, 28, seq![a, b] + more, tail);
}

/// A renegotiation info extension (a length byte and that many bytes) gives
/// those bytes, in every table.
pub proof fn law_renegotiation_info(ctx: Context, d: Seq<u8>, tail: Seq<u8>)
    requires
        d.len() < 256,
    ensures
        spec_extension(ctx, ext_bytes(0xff01, seq![d.len() as u8] + d) + tail) == Ok::<
            _,
            SpecParseError,
        >((tail, SpecTlsExtension::RenegotiationInfo(d))),
{
    let data = seq![d.len() as u8] + d;
    assert((0xff01u16 & 0x0f0f) != 0x0a0a) by (bit_vector);
    lemma_ext_bytes(ctx, 0xff01, data, tail);
    assert(data.skip(1).take(d.len() as int) =~= d);
    assert(data.skip(1).skip(d.len() as int) =~= Seq::<u8>::empty());
}

/// A server hello's key share extension gives its one share.
pub proof fn law_server_hello_key_share(e: SpecKeyShareEntry, tail: Seq<u8>)
    requires
        e.kx.len() + 4 < 65536,
    ensures
        spec_extension(Context::ServerHello, ext_bytes(51, key_share_entry_bytes(e)) + tail) == Ok::<
            _,
            SpecParseError,
        >((tail, SpecTlsExtension::KeyShare(seq![e]))),
{
    let d = key_share_entry_bytes(e);
    lemma_key_share_entry_roundtrip(e, Seq::empty());
    assert(d + Seq::<u8>::empty() =~= d);
    lemma_small_types_not_grease();
    lemma_ext_bytes(Context::ServerHello, 51, d, tail);
}

/// The wire forms of values one after another.
pub open spec fn concat_map<T>(es: Seq<T>, enc: spec_fn(T) -> Seq<u8>) -> Seq<u8>
    decreases es.len(),
{
    if es.len() == 0 {
        Seq::empty()
    } else {
        enc(es[0]) + concat_map(es.drop_first(), enc)
    }
}

/// Repeating a parser that reads back the wire form of each value, over
/// those wire forms one after another, gives all the values in order.
proof fn lemma_many0_roundtrip<T>(
    p: spec_fn(Seq<u8>) -> SpecResult<T>,
    enc: spec_fn(T) -> Seq<u8>,
    es: Seq<T>,
)
    requires
        forall|k: int, rest: Seq<u8>|
            0 <= k < es.len() ==> #[trigger] p(enc(es[k]) + rest) == Ok::<_, SpecParseError>(
                (rest, es[k]),
            ),
        forall|k: int| 0 <= k < es.len() ==> #[trigger] enc(es[k]).len() > 0,
        p(Seq::empty()) is Err,
    ensures
        spec_many0_complete(p, concat_map(es, enc)) == Ok::<_, SpecParseError>(
            (Seq::<u8>::empty(), es),
        ),
    decreases es.len(),
{
    if es.len() == 0 {
        assert(concat_map(es, enc) =~= Seq::<u8>::empty());
        assert(es =~= Seq::<T>::empty());
    } else {
        let tail = es.drop_first();
        assert forall|k: int, rest: Seq<u8>| 0 <= k < tail.len() implies #[trigger] p(
            enc(tail[k]) + rest,
        ) == Ok::<_, SpecParseError>((rest, tail[k])) by {
            assert(tail[k] == es[k + 1]);
            assert(p(enc(es[k + 1]) + rest) == Ok::<_, SpecParseError>((rest, es[k + 1])));
        }
        assert forall|k: int| 0 <= k < tail.len() implies #[trigger] enc(tail[k]).len() > 0 by {
            assert(tail[k] == es[k + 1]);
            assert(enc(es[k + 1]).len() > 0);
        }
        lemma_many0_roundtrip(p, enc, tail);
        let cb = concat_map(es, enc);
        let tb = concat_map(tail, enc);
        assert(cb == enc(es[0]) + tb);
        assert(p(enc(es[0]) + tb) == Ok::<_, SpecParseError>((tb, es[0])));
        assert(enc(es[0]).len() > 0);
        assert(seq![es[0]] + tail =~= es);
    }
}

/// The wire form of a server name: type byte, two-byte length, name.
pub open spec fn server_name_bytes(n: (SNIType, Seq<u8>)) -> Seq<u8> {
    seq![n.0.0] + u16_bytes(n.1.len() as u16) + n.1
}

/// Every name fits a two-byte length.
pub open spec fn server_names_fit(ns: Seq<(SNIType, Seq<u8>)>) -> bool {
    forall|k: int| 0 <= k < ns.len() ==> #[trigger] ns[k].1.len() < 65536
}

proof fn lemma_server_name_roundtrip(n: (SNIType, Seq<u8>), rest: Seq<u8>)
    requires
        n.1.len() < 65536,
    ensures
        spec_parse_tls_extension_sni_hostname(server_name_bytes(n) + rest) == Ok::<
            _,
            SpecParseError,
        >((rest, n)),
{
    let b = server_name_bytes(n) + rest;
    let l = n.1.len();
    assert(b[0] == n.0.0);
    assert(b.skip(1)[0] == ((l as u16) / 256) as u8 && b.skip(1)[1] == ((l as u16) % 256) as u8);
    assert(b.skip(1).skip(2).take(l as int) =~= n.1);
    assert(b.skip(1).skip(2).skip(l as int) =~= rest);
}

/// The server name content is every name of its list, in order.
pub proof fn law_server_names_content(ns: Seq<(SNIType, Seq<u8>)>, tail: Seq<u8>)
    requires
        server_names_fit(ns),
        concat_map(ns, |n: (SNIType, Seq<u8>)| server_name_bytes(n)).len() < 65536,
    ensures
        ({
            let lb = concat_map(ns, |n: (SNIType, Seq<u8>)| server_name_bytes(n));
            spec_parse_tls_extension_sni_content(u16_bytes(lb.len() as u16) + lb + tail) == Ok::<
                _,
                SpecParseError,
            >((tail, SpecTlsExtension::SNI(ns)))
        }),
{
    let enc = |n: (SNIType, Seq<u8>)| server_name_bytes(n);
    let lb = concat_map(ns, enc);
    assert forall|k: int, rest: Seq<u8>| 0 <= k < ns.len() implies #[trigger] sni_hostname_fn()(
        enc(ns[k]) + rest,
    ) == Ok::<_, SpecParseError>((rest, ns[k])) by {
        lemma_server_name_roundtrip(ns[k], rest);
    }
    assert(sni_hostname_fn()(Seq::empty()) is Err);
    lemma_many0_roundtrip(sni_hostname_fn(), enc, ns);
    let s = u16_bytes(lb.len() as u16) + lb + tail;
    assert(s.len() > 0);
    assert(s[0] == ((lb.len() as u16) / 256) as u8 && s[1] == ((lb.len() as u16) % 256) as u8);
    assert(s.skip(2).take(lb.len() as int) =~= lb);
    assert(s.skip(2).skip(lb.len() as int) =~= tail);
}

/// No type that a table reads is a GREASE value.
proof fn lemma_types_not_grease()
    ensures
        forall|t: u16| t < 256 ==> !#[trigger] is_grease(t),
        !is_grease(13172),
        !is_grease(0xff01),
        !is_grease(0xfe0d),
        !is_grease(0xffce),
{
    lemma_small_types_not_grease();
    assert((13172u16 & 0x0f0f) != 0x0a0a) by (bit_vector);
    assert((0xff01u16 & 0x0f0f) != 0x0a0a) by (bit_vector);
    assert((0xfe0du16 & 0x0f0f) != 0x0a0a) by (bit_vector);
    assert((0xffceu16 & 0x0f0f) != 0x0a0a) by (bit_vector);
}

/// A max fragment length extension gives its first data byte, in every table.
pub proof fn law_max_fragment_length(ctx: Context, x: u8, more: Seq<u8>, tail: Seq<u8>)
    requires
        more.len() + 1 < 65536,
    ensures
        spec_extension(ctx, ext_bytes(1, seq![x] + more) + tail) == Ok::<_, SpecParseError>(
            (tail, SpecTlsExtension::MaxFragmentLength(x)),
        ),
{
    lemma_types_not_grease();
    lemma_ext_bytes(ctx, 1, seq![x] + more, tail);
    match ctx {
        Context::ClientHello => {},
        Context::ServerHello => {},
        Context::Any => {},
    }
}

/// A heartbeat extension gives its first data byte (the mode), in every table.
pub proof fn law_heartbeat(ctx: Context, x: u8, more: Seq<u8>, tail: Seq<u8>)
    requires
        more.len() + 1 < 65536,
    ensures
        spec_extension(ctx, ext_bytes(15, seq![x] + more) + tail) == Ok::<_, SpecParseError>(
            (tail, SpecTlsExtension::Heartbeat(x)),
        ),
{
    lemma_types_not_grease();
    lemma_ext_bytes(ctx, 15, seq![x] + more, tail);
    match ctx {
        Context::ClientHello => {},
        Context::ServerHello => {},
        Context::Any => {},
    }
}

/// A status request extension without data is a request without details, in every table.
pub proof fn law_status_request_empty(ctx: Context, tail: Seq<u8>)
    ensures
        spec_extension(ctx, ext_bytes(5, Seq::<u8>::empty()) + tail) == Ok::<_, SpecParseError>(
            (tail, SpecTlsExtension::StatusRequest(None)),
        ),
{
    lemma_types_not_grease();
    lemma_ext_bytes(ctx, 5, Seq::<u8>::empty(), tail);
    match ctx {
        Context::ClientHello => {},
        Context::ServerHello => {},
        Context::Any => {},
    }
}

/// A status request extension with data gives its status type byte and the remaining bytes, in every table.
pub proof fn law_status_request(ctx: Context, t: u8, req: Seq<u8>, tail: Seq<u8>)
    requires
        req.len() + 1 < 65536,
    ensures
        spec_extension(ctx, ext_bytes(5, seq![t] + req) + tail) == Ok::<_, SpecParseError>(
            (tail, SpecTlsExtension::StatusRequest(Some((CertificateStatusType(t), req)))),
        ),
{
    assert((seq![t] + req).skip(1).take(req.len() as int) =~= req);
    assert((seq![t] + req).skip(1).skip(req.len() as int) =~= Seq::<u8>::empty());
    lemma_types_not_grease();
    lemma_ext_bytes(ctx, 5, seq![t] + req, tail);
    match ctx {
        Context::ClientHello => {},
        Context::ServerHello => {},
        Context::Any => {},
    }
}

/// An early data extension without data has no size, in every table.
pub proof fn law_early_data_empty(ctx: Context, tail: Seq<u8>)
    ensures
        spec_extension(ctx, ext_bytes(42, Seq::<u8>::empty()) + tail) == Ok::<_, SpecParseError>(
            (tail, SpecTlsExtension::EarlyData(None)),
        ),
{
    lemma_types_not_grease();
    lemma_ext_bytes(ctx, 42, Seq::<u8>::empty(), tail);
    match ctx {
        Context::ClientHello => {},
        Context::ServerHello => {},
        Context::Any => {},
    }
}

proof fn lemma_early_data_content(a: u8, b: u8, c: u8, d: u8, more: Seq<u8>)
    requires
        more.len() + 4 < 65536,
    ensures
        value_of(
            spec_parse_tls_extension_early_data_content(
                seq![a, b, c, d] + more,
                (seq![a, b, c, d] + more).len() as u16,
            ),
        ) == Ok::<_, SpecParseError>(
            SpecTlsExtension::EarlyData(
                Some((a as int * 16777216 + b as int * 65536 + c as int * 256 + d as int) as u32),
            ),
        ),
{
    let data = seq![a, b, c, d] + more;
    assert(data[0] == a && data[1] == b && data[2] == c && data[3] == d);
}

/// An early data extension with data gives the big-endian value of its first four bytes, in every table.
pub proof fn law_early_data(ctx: Context, a: u8, b: u8, c: u8, d: u8, more: Seq<u8>, tail: Seq<u8>)
    requires
        more.len() + 4 < 65536,
    ensures
        spec_extension(ctx, ext_bytes(42, seq![a, b, c, d] + more) + tail) == Ok::<_, SpecParseError>(
            (tail, SpecTlsExtension::EarlyData(Some((a as int * 16777216 + b as int * 65536 + c as int * 256 + d as int) as u32))),
        ),
{
    lemma_early_data_content(a, b, c, d, more);
    lemma_types_not_grease();
    lemma_ext_bytes(ctx, 42, seq![a, b, c, d] + more, tail);
    match ctx {
        Context::ClientHello => {},
        Context::ServerHello => {},
        Context::Any => {},
    }
}

/// A padding extension gives its data, in every table.
pub proof fn law_padding(ctx: Context, d: Seq<u8>, tail: Seq<u8>)
    requires
        d.len() < 65536,
    ensures
        spec_extension(ctx, ext_bytes(21, d) + tail) == Ok::<_, SpecParseError>(
            (tail, SpecTlsExtension::Padding(d)),
        ),
{
    assert(d.take(d.len() as int) =~= d);
    lemma_types_not_grease();
    lemma_ext_bytes(ctx, 21, d, tail);
    match ctx {
        Context::ClientHello => {},
        Context::ServerHello => {},
        Context::Any => {},
    }
}

/// A session ticket extension gives its data, in every table.
pub proof fn law_session_ticket(ctx: Context, d: Seq<u8>, tail: Seq<u8>)
    requires
        d.len() < 65536,
    ensures
        spec_extension(ctx, ext_bytes(35, d) + tail) == Ok::<_, SpecParseError>(
            (tail, SpecTlsExtension::SessionTicket(d)),
        ),
{
    assert(d.take(d.len() as int) =~= d);
    lemma_types_not_grease();
    lemma_ext_bytes(ctx, 35, d, tail);
    match ctx {
        Context::ClientHello => {},
        Context::ServerHello => {},
        Context::Any => {},
    }
}

/// A pre-shared key extension gives its data, in every table.
pub proof fn law_pre_shared_key(ctx: Context, d: Seq<u8>, tail: Seq<u8>)
    requires
        d.len() < 65536,
    ensures
        spec_extension(ctx, ext_bytes(41, d) + tail) == Ok::<_, SpecParseError>(
            (tail, SpecTlsExtension::PreSharedKey(d)),
        ),
{
    assert(d.take(d.len() as int) =~= d);
    lemma_types_not_grease();
    lemma_ext_bytes(ctx, 41, d, tail);
    match ctx {
        Context::ClientHello => {},
        Context::ServerHello => {},
        Context::Any => {},
    }
}

/// A compress certificate extension gives its data, in every table.
pub proof fn law_compress_certificate(ctx: Context, d: Seq<u8>, tail: Seq<u8>)
    requires
        d.len() < 65536,
    ensures
        spec_extension(ctx, ext_bytes(27, d) + tail) == Ok::<_, SpecParseError>(
            (tail, SpecTlsExtension::CompressCertificate(d)),
        ),
{
    assert(d.take(d.len() as int) =~= d);
    lemma_types_not_grease();
    lemma_ext_bytes(ctx, 27, d, tail);
    match ctx {
        Context::ClientHello => {},
        Context::ServerHello => {},
        Context::Any => {},
    }
}

/// A cookie extension gives its data, in every table.
pub proof fn law_cookie(ctx: Context, d: Seq<u8>, tail: Seq<u8>)
    requires
        d.len() < 65536,
    ensures
        spec_extension(ctx, ext_bytes(44, d) + tail) == Ok::<_, SpecParseError>(
            (tail, SpecTlsExtension::Cookie(d)),
        ),
{
    assert(d.take(d.len() as int) =~= d);
    lemma_types_not_grease();
    lemma_ext_bytes(ctx, 44, d, tail);
    match ctx {
        Context::ClientHello => {},
        Context::ServerHello => {},
        Context::Any => {},
    }
}

/// A QUIC transport parameters extension of a client hello gives its data.
pub proof fn law_quic_transport_parameters(ctx: Context, d: Seq<u8>, tail: Seq<u8>)
    requires
        ctx is ClientHello,
        d.len() < 65536,
    ensures
        spec_extension(ctx, ext_bytes(57, d) + tail) == Ok::<_, SpecParseError>(
            (tail, SpecTlsExtension::QuicTransportParameters(d)),
        ),
{
    assert(d.take(d.len() as int) =~= d);
    lemma_types_not_grease();
    lemma_ext_bytes(ctx, 57, d, tail);
    match ctx {
        Context::ClientHello => {},
        Context::ServerHello => {},
        Context::Any => {},
    }
}

/// The generic table keeps a key share extension, of either type it was given (40 and 51), as its raw data.
pub proof fn law_key_share_old(ctx: Context, t: u16, d: Seq<u8>, tail: Seq<u8>)
    requires
        ctx is Any,
        t == 40 || t == 51,
        d.len() < 65536,
    ensures
        spec_extension(ctx, ext_bytes(t, d) + tail) == Ok::<_, SpecParseError>(
            (tail, SpecTlsExtension::KeyShareOld(d)),
        ),
{
    assert(d.take(d.len() as int) =~= d);
    lemma_types_not_grease();
    lemma_ext_bytes(ctx, t, d, tail);
    match ctx {
        Context::ClientHello => {},
        Context::ServerHello => {},
        Context::Any => {},
    }
}

/// An encrypt-then-MAC extension gives its value whatever its data, in every table.
pub proof fn law_encrypt_then_mac(ctx: Context, d: Seq<u8>, tail: Seq<u8>)
    requires
        d.len() < 65536,
    ensures
        spec_extension(ctx, ext_bytes(22, d) + tail) == Ok::<_, SpecParseError>(
            (tail, SpecTlsExtension::EncryptThenMac),
        ),
{
    lemma_types_not_grease();
    lemma_ext_bytes(ctx, 22, d, tail);
    match ctx {
        Context::ClientHello => {},
        Context::ServerHello => {},
        Context::Any => {},
    }
}

/// An extended master secret extension gives its value whatever its data, in every table.
pub proof fn law_extended_master_secret(ctx: Context, d: Seq<u8>, tail: Seq<u8>)
    requires
        d.len() < 65536,
    ensures
        spec_extension(ctx, ext_bytes(23, d) + tail) == Ok::<_, SpecParseError>(
            (tail, SpecTlsExtension::ExtendedMasterSecret),
        ),
{
    lemma_types_not_grease();
    lemma_ext_bytes(ctx, 23, d, tail);
    match ctx {
        Context::ClientHello => {},
        Context::ServerHello => {},
        Context::Any => {},
    }
}

/// A post-handshake authentication extension gives its value whatever its data, in the client hello and generic tables.
pub proof fn law_post_handshake_auth(ctx: Context, d: Seq<u8>, tail: Seq<u8>)
    requires
        ctx is ClientHello || ctx is Any,
        d.len() < 65536,
    ensures
        spec_extension(ctx, ext_bytes(49, d) + tail) == Ok::<_, SpecParseError>(
            (tail, SpecTlsExtension::PostHandshakeAuth),
        ),
{
    lemma_types_not_grease();
    lemma_ext_bytes(ctx, 49, d, tail);
    match ctx {
        Context::ClientHello => {},
        Context::ServerHello => {},
        Context::Any => {},
    }
}

/// A next protocol negotiation extension gives its value whatever its data, in every table.
pub proof fn law_next_protocol_negotiation(ctx: Context, d: Seq<u8>, tail: Seq<u8>)
    requires
        d.len() < 65536,
    ensures
        spec_extension(ctx, ext_bytes(13172, d) + tail) == Ok::<_, SpecParseError>(
            (tail, SpecTlsExtension::NextProtocolNegotiation),
        ),
{
    lemma_types_not_grease();
    lemma_ext_bytes(ctx, 13172, d, tail);
    match ctx {
        Context::ClientHello => {},
        Context::ServerHello => {},
        Context::Any => {},
    }
}

/// A signed certificate timestamp extension whose data starts with a complete length-prefixed string gives that string, in every table.
pub proof fn law_signed_certificate_timestamp(ctx: Context, d: Seq<u8>, more: Seq<u8>, tail: Seq<u8>)
    requires
        d.len() + more.len() + 2 < 65536,
    ensures
        spec_extension(ctx, ext_bytes(18, u16_bytes(d.len() as u16) + d + more) + tail) == Ok::<_, SpecParseError>(
            (tail, SpecTlsExtension::SignedCertificateTimestamp(Some(d))),
        ),
{
    let data = u16_bytes(d.len() as u16) + d + more;
    assert(data.skip(2).take(d.len() as int) =~= d);
    lemma_types_not_grease();
    lemma_ext_bytes(ctx, 18, u16_bytes(d.len() as u16) + d + more, tail);
    match ctx {
        Context::ClientHello => {},
        Context::ServerHello => {},
        Context::Any => {},
    }
}

/// A signed certificate timestamp extension without data has no value, in every table.
pub proof fn law_signed_certificate_timestamp_empty(ctx: Context, tail: Seq<u8>)
    ensures
        spec_extension(ctx, ext_bytes(18, Seq::<u8>::empty()) + tail) == Ok::<_, SpecParseError>(
            (tail, SpecTlsExtension::SignedCertificateTimestamp(None)),
        ),
{
    lemma_types_not_grease();
    lemma_ext_bytes(ctx, 18, Seq::<u8>::empty(), tail);
    match ctx {
        Context::ClientHello => {},
        Context::ServerHello => {},
        Context::Any => {},
    }
}

/// An EC point formats extension (a length byte and the formats) gives the formats, in every table.
pub proof fn law_ec_point_formats(ctx: Context, fs: Seq<u8>, more: Seq<u8>, tail: Seq<u8>)
    requires
        fs.len() < 256,
        fs.len() + more.len() + 1 < 65536,
    ensures
        spec_extension(ctx, ext_bytes(11, seq![fs.len() as u8] + fs + more) + tail) == Ok::<_, SpecParseError>(
            (tail, SpecTlsExtension::EcPointFormats(fs)),
        ),
{
    let data = seq![fs.len() as u8] + fs + more;
    assert(data.skip(1).take(fs.len() as int) =~= fs);
    lemma_types_not_grease();
    lemma_ext_bytes(ctx, 11, seq![fs.len() as u8] + fs + more, tail);
    match ctx {
        Context::ClientHello => {},
        Context::ServerHello => {},
        Context::Any => {},
    }
}

/// A PSK key exchange modes extension (a length byte and the modes) gives the modes, in the client hello and generic tables.
pub proof fn law_psk_key_exchange_modes(ctx: Context, ms: Seq<u8>, more: Seq<u8>, tail: Seq<u8>)
    requires
        ctx is ClientHello || ctx is Any,
        ms.len() < 256,
        ms.len() + more.len() + 1 < 65536,
    ensures
        spec_extension(ctx, ext_bytes(45, seq![ms.len() as u8] + ms + more) + tail) == Ok::<_, SpecParseError>(
            (tail, SpecTlsExtension::PskExchangeModes(ms)),
        ),
{
    let data = seq![ms.len() as u8] + ms + more;
    assert(data.skip(1).take(ms.len() as int) =~= ms);
    lemma_types_not_grease();
    lemma_ext_bytes(ctx, 45, seq![ms.len() as u8] + ms + more, tail);
    match ctx {
        Context::ClientHello => {},
        Context::ServerHello => {},
        Context::Any => {},
    }
}

/// The wire form of one of the ALPN protocol names.
pub open spec fn protocol_names_entry_bytes(x: Seq<u8>) -> Seq<u8> {
    seq![x.len() as u8] + x
}

/// Each of the ALPN protocol names fits its length fields.
pub open spec fn protocol_names_fit(xs: Seq<Seq<u8>>) -> bool {
    forall|k: int| 0 <= k < xs.len() ==> {
        let x = #[trigger] xs[k];
        x.len() < 256
    }
}

proof fn lemma_protocol_names_entry(x: Seq<u8>, rest: Seq<u8>)
    requires
        x.len() < 256,
    ensures
        spec_parse_protocol_name(protocol_names_entry_bytes(x) + rest) == Ok::<_, SpecParseError>((rest, x)),
{
    let b = seq![x.len() as u8] + x + rest;
    assert(b.skip(1).take(x.len() as int) =~= x);
    assert(b.skip(1).skip(x.len() as int) =~= rest);
}

/// The content of the list of ALPN protocol names: a two-byte list length and the
/// entries one after another gives every entry, in order.
pub proof fn law_protocol_names_content(xs: Seq<Seq<u8>>, tail: Seq<u8>)
    requires
        protocol_names_fit(xs),
        concat_map(xs, |x: Seq<u8>| protocol_names_entry_bytes(x)).len() < 65536,
    ensures
        ({
            let lb = concat_map(xs, |x: Seq<u8>| protocol_names_entry_bytes(x));
            spec_parse_tls_extension_alpn_content(u16_bytes(lb.len() as u16) + lb + tail) == Ok::<_, SpecParseError>(
                (tail, SpecTlsExtension::ALPN(xs)),
            )
        }),
{
    let enc = |x: Seq<u8>| protocol_names_entry_bytes(x);
    let lb = concat_map(xs, enc);
    assert forall|k: int, rest: Seq<u8>| 0 <= k < xs.len() implies #[trigger] protocol_name_fn()(
        enc(xs[k]) + rest,
    ) == Ok::<_, SpecParseError>((rest, xs[k])) by {
        lemma_protocol_names_entry(xs[k], rest);
    }
    assert(protocol_name_fn()(Seq::empty()) is Err);
    lemma_many0_roundtrip(protocol_name_fn(), enc, xs);
    let s = u16_bytes(lb.len() as u16) + lb + tail;
    assert(s.len() > 0);
    assert(s[0] == ((lb.len() as u16) / 256) as u8 && s[1] == ((lb.len() as u16) % 256) as u8);
    assert(s.skip(2).take(lb.len() as int) =~= lb);
    assert(s.skip(2).skip(lb.len() as int) =~= tail);
}

/// An extension holding a list of ALPN protocol names gives every entry, in order,
/// in every table.
pub proof fn law_protocol_names_extension(ctx: Context, xs: Seq<Seq<u8>>, tail: Seq<u8>)
    requires
        protocol_names_fit(xs),
        concat_map(xs, |x: Seq<u8>| protocol_names_entry_bytes(x)).len() + 2 < 65536,
    ensures
        ({
            let lb = concat_map(xs, |x: Seq<u8>| protocol_names_entry_bytes(x));
            spec_extension(ctx, ext_bytes(16, u16_bytes(lb.len() as u16) + lb) + tail) == Ok::<
                _,
                SpecParseError,
            >((tail, SpecTlsExtension::ALPN(xs)))
        }),
{
    let lb = concat_map(xs, |x: Seq<u8>| protocol_names_entry_bytes(x));
    let data = u16_bytes(lb.len() as u16) + lb;
    law_protocol_names_content(xs, Seq::empty());
    assert(data + Seq::<u8>::empty() =~= data);
    lemma_types_not_grease();
    lemma_ext_bytes(ctx, 16, data, tail);
    match ctx {
        Context::ClientHello => {},
        Context::ServerHello => {},
        Context::Any => {},
    }
}

/// The wire form of one of the signature schemes.
pub open spec fn signature_schemes_entry_bytes(x: SignatureScheme) -> Seq<u8> {
    u16_bytes(x.0)
}

/// Each of the signature schemes fits its length fields.
pub open spec fn signature_schemes_fit(xs: Seq<SignatureScheme>) -> bool {
    forall|k: int| 0 <= k < xs.len() ==> {
        let x = #[trigger] xs[k];
        true
    }
}

proof fn lemma_signature_schemes_entry(x: SignatureScheme, rest: Seq<u8>)
    requires
        true,
    ensures
        spec_parse_signature_scheme(signature_schemes_entry_bytes(x) + rest) == Ok::<_, SpecParseError>((rest, x)),
{
    let b = u16_bytes(x.0) + rest;
    assert(b[0] == (x.0 / 256) as u8 && b[1] == (x.0 % 256) as u8);
    assert(b.skip(2) =~= rest);
}

/// The content of the list of signature schemes: a two-byte list length and the
/// entries one after another gives every entry, in order.
pub proof fn law_signature_schemes_content(xs: Seq<SignatureScheme>, tail: Seq<u8>)
    requires
        signature_schemes_fit(xs),
        concat_map(xs, |x: SignatureScheme| signature_schemes_entry_bytes(x)).len() < 65536,
    ensures
        ({
            let lb = concat_map(xs, |x: SignatureScheme| signature_schemes_entry_bytes(x));
            spec_parse_tls_extension_signature_algorithms_content(u16_bytes(lb.len() as u16) + lb + tail) == Ok::<_, SpecParseError>(
                (tail, SpecTlsExtension::SignatureAlgorithms(xs)),
            )
        }),
{
    let enc = |x: SignatureScheme| signature_schemes_entry_bytes(x);
    let lb = concat_map(xs, enc);
    assert forall|k: int, rest: Seq<u8>| 0 <= k < xs.len() implies #[trigger] signature_scheme_fn()(
        enc(xs[k]) + rest,
    ) == Ok::<_, SpecParseError>((rest, xs[k])) by {
        lemma_signature_schemes_entry(xs[k], rest);
    }
    assert(signature_scheme_fn()(Seq::empty()) is Err);
    lemma_many0_roundtrip(signature_scheme_fn(), enc, xs);
    let s = u16_bytes(lb.len() as u16) + lb + tail;
    assert(s.len() > 0);
    assert(s[0] == ((lb.len() as u16) / 256) as u8 && s[1] == ((lb.len() as u16) % 256) as u8);
    assert(s.skip(2).take(lb.len() as int) =~= lb);
    assert(s.skip(2).skip(lb.len() as int) =~= tail);
}

/// An extension holding a list of signature schemes gives every entry, in order,
/// in every table.
pub proof fn law_signature_schemes_extension(ctx: Context, xs: Seq<SignatureScheme>, tail: Seq<u8>)
    requires
        signature_schemes_fit(xs),
        concat_map(xs, |x: SignatureScheme| signature_schemes_entry_bytes(x)).len() + 2 < 65536,
    ensures
        ({
            let lb = concat_map(xs, |x: SignatureScheme| signature_schemes_entry_bytes(x));
            spec_extension(ctx, ext_bytes(13, u16_bytes(lb.len() as u16) + lb) + tail) == Ok::<
                _,
                SpecParseError,
            >((tail, SpecTlsExtension::SignatureAlgorithms(xs)))
        }),
{
    let lb = concat_map(xs, |x: SignatureScheme| signature_schemes_entry_bytes(x));
    let data = u16_bytes(lb.len() as u16) + lb;
    law_signature_schemes_content(xs, Seq::empty());
    assert(data + Seq::<u8>::empty() =~= data);
    lemma_types_not_grease();
    lemma_ext_bytes(ctx, 13, data, tail);
    match ctx {
        Context::ClientHello => {},
        Context::ServerHello => {},
        Context::Any => {},
    }
}

/// The wire form of one of the OID filters.
pub open spec fn oid_filters_entry_bytes(x: SpecOidFilter) -> Seq<u8> {
    seq![x.cert_ext_oid.len() as u8] + x.cert_ext_oid + u16_bytes(x.cert_ext_val.len() as u16) + x.cert_ext_val
}

/// Each of the OID filters fits its length fields.
pub open spec fn oid_filters_fit(xs: Seq<SpecOidFilter>) -> bool {
    forall|k: int| 0 <= k < xs.len() ==> {
        let x = #[trigger] xs[k];
        x.cert_ext_oid.len() < 256 && x.cert_ext_val.len() < 65536
    }
}

proof fn lemma_oid_filters_entry(x: SpecOidFilter, rest: Seq<u8>)
    requires
        x.cert_ext_oid.len() < 256 && x.cert_ext_val.len() < 65536,
    ensures
        spec_parse_tls_oid_filter(oid_filters_entry_bytes(x) + rest) == Ok::<_, SpecParseError>((rest, x)),
{
    let o = x.cert_ext_oid;
    let v = x.cert_ext_val;
    let b = seq![o.len() as u8] + o + u16_bytes(v.len() as u16) + v + rest;
    assert(b.skip(1).take(o.len() as int) =~= o);
    let r = b.skip(1).skip(o.len() as int);
    assert(r =~= u16_bytes(v.len() as u16) + v + rest);
    assert(r[0] == ((v.len() as u16) / 256) as u8 && r[1] == ((v.len() as u16) % 256) as u8);
    assert(r.skip(2).take(v.len() as int) =~= v);
    assert(r.skip(2).skip(v.len() as int) =~= rest);
}

/// The content of the list of OID filters: a two-byte list length and the
/// entries one after another gives every entry, in order.
pub proof fn law_oid_filters_content(xs: Seq<SpecOidFilter>, tail: Seq<u8>)
    requires
        oid_filters_fit(xs),
        concat_map(xs, |x: SpecOidFilter| oid_filters_entry_bytes(x)).len() < 65536,
    ensures
        ({
            let lb = concat_map(xs, |x: SpecOidFilter| oid_filters_entry_bytes(x));
            spec_parse_tls_extension_oid_filters(u16_bytes(lb.len() as u16) + lb + tail) == Ok::<_, SpecParseError>(
                (tail, SpecTlsExtension::OidFilters(xs)),
            )
        }),
{
    let enc = |x: SpecOidFilter| oid_filters_entry_bytes(x);
    let lb = concat_map(xs, enc);
    assert forall|k: int, rest: Seq<u8>| 0 <= k < xs.len() implies #[trigger] oid_filter_fn()(
        enc(xs[k]) + rest,
    ) == Ok::<_, SpecParseError>((rest, xs[k])) by {
        lemma_oid_filters_entry(xs[k], rest);
    }
    assert(oid_filter_fn()(Seq::empty()) is Err);
    lemma_many0_roundtrip(oid_filter_fn(), enc, xs);
    let s = u16_bytes(lb.len() as u16) + lb + tail;
    assert(s.len() > 0);
    assert(s[0] == ((lb.len() as u16) / 256) as u8 && s[1] == ((lb.len() as u16) % 256) as u8);
    assert(s.skip(2).take(lb.len() as int) =~= lb);
    assert(s.skip(2).skip(lb.len() as int) =~= tail);
}

/// An extension holding a list of OID filters gives every entry, in order,
/// in the client hello and generic tables.
#[verifier::rlimit(40)]
pub proof fn law_oid_filters_extension(ctx: Context, xs: Seq<SpecOidFilter>, tail: Seq<u8>)
    requires
        ctx is ClientHello || ctx is Any,
        oid_filters_fit(xs),
        concat_map(xs, |x: SpecOidFilter| oid_filters_entry_bytes(x)).len() + 2 < 65536,
    ensures
        ({
            let lb = concat_map(xs, |x: SpecOidFilter| oid_filters_entry_bytes(x));
            spec_extension(ctx, ext_bytes(48, u16_bytes(lb.len() as u16) + lb) + tail) == Ok::<
                _,
                SpecParseError,
            >((tail, SpecTlsExtension::OidFilters(xs)))
        }),
{
    let lb = concat_map(xs, |x: SpecOidFilter| oid_filters_entry_bytes(x));
    let data = u16_bytes(lb.len() as u16) + lb;
    law_oid_filters_content(xs, Seq::empty());
    assert(data + Seq::<u8>::empty() =~= data);
    lemma_types_not_grease();
    lemma_ext_bytes(ctx, 48, data, tail);
    match ctx {
        Context::ClientHello => {},
        Context::ServerHello => {},
        Context::Any => {},
    }
}

/// The wire form of one of the server names.
pub open spec fn server_names_table_entry_bytes(x: (SNIType, Seq<u8>)) -> Seq<u8> {
    server_name_bytes(x)
}

/// Each of the server names fits its length fields.
pub open spec fn server_names_table_fit(xs: Seq<(SNIType, Seq<u8>)>) -> bool {
    forall|k: int| 0 <= k < xs.len() ==> {
        let x = #[trigger] xs[k];
        x.1.len() < 65536
    }
}

proof fn lemma_server_names_table_entry(x: (SNIType, Seq<u8>), rest: Seq<u8>)
    requires
        x.1.len() < 65536,
    ensures
        spec_parse_tls_extension_sni_hostname(server_names_table_entry_bytes(x) + rest) == Ok::<_, SpecParseError>((rest, x)),
{
    lemma_server_name_roundtrip(x, rest);
}

/// The content of the list of server names: a two-byte list length and the
/// entries one after another gives every entry, in order.
pub proof fn law_server_names_table_content(xs: Seq<(SNIType, Seq<u8>)>, tail: Seq<u8>)
    requires
        server_names_table_fit(xs),
        concat_map(xs, |x: (SNIType, Seq<u8>)| server_names_table_entry_bytes(x)).len() < 65536,
    ensures
        ({
            let lb = concat_map(xs, |x: (SNIType, Seq<u8>)| server_names_table_entry_bytes(x));
            spec_parse_tls_extension_sni_content(u16_bytes(lb.len() as u16) + lb + tail) == Ok::<_, SpecParseError>(
                (tail, SpecTlsExtension::SNI(xs)),
            )
        }),
{
    let enc = |x: (SNIType, Seq<u8>)| server_names_table_entry_bytes(x);
    let lb = concat_map(xs, enc);
    assert forall|k: int, rest: Seq<u8>| 0 <= k < xs.len() implies #[trigger] sni_hostname_fn()(
        enc(xs[k]) + rest,
    ) == Ok::<_, SpecParseError>((rest, xs[k])) by {
        lemma_server_names_table_entry(xs[k], rest);
    }
    assert(sni_hostname_fn()(Seq::empty()) is Err);
    lemma_many0_roundtrip(sni_hostname_fn(), enc, xs);
    let s = u16_bytes(lb.len() as u16) + lb + tail;
    assert(s.len() > 0);
    assert(s[0] == ((lb.len() as u16) / 256) as u8 && s[1] == ((lb.len() as u16) % 256) as u8);
    assert(s.skip(2).take(lb.len() as int) =~= lb);
    assert(s.skip(2).skip(lb.len() as int) =~= tail);
}

/// An extension holding a list of server names gives every entry, in order,
/// in every table.
pub proof fn law_server_names_table_extension(ctx: Context, xs: Seq<(SNIType, Seq<u8>)>, tail: Seq<u8>)
    requires
        server_names_table_fit(xs),
        concat_map(xs, |x: (SNIType, Seq<u8>)| server_names_table_entry_bytes(x)).len() + 2 < 65536,
    ensures
        ({
            let lb = concat_map(xs, |x: (SNIType, Seq<u8>)| server_names_table_entry_bytes(x));
            spec_extension(ctx, ext_bytes(0, u16_bytes(lb.len() as u16) + lb) + tail) == Ok::<
                _,
                SpecParseError,
            >((tail, SpecTlsExtension::SNI(xs)))
        }),
{
    let lb = concat_map(xs, |x: (SNIType, Seq<u8>)| server_names_table_entry_bytes(x));
    let data = u16_bytes(lb.len() as u16) + lb;
    law_server_names_table_content(xs, Seq::empty());
    assert(data + Seq::<u8>::empty() =~= data);
    lemma_types_not_grease();
    lemma_ext_bytes(ctx, 0, data, tail);
    match ctx {
        Context::ClientHello => {},
        Context::ServerHello => {},
        Context::Any => {},
    }
}

/// The wire form of a list of named groups, two bytes each.
pub open spec fn groups_bytes(gs: Seq<NamedGroup>) -> Seq<u8> {
    Seq::new(
        2 * gs.len(),
        |i: int|
            if i % 2 == 0 {
                (gs[i / 2].0 / 256) as u8
            } else {
                (gs[i / 2].0 % 256) as u8
            },
    )
}

proof fn lemma_supported_groups_content(gs: Seq<NamedGroup>)
    requires
        gs.len() < 32768,
    ensures
        value_of(
            spec_parse_tls_extension_supported_groups_content(
                u16_bytes((2 * gs.len()) as u16) + groups_bytes(gs),
            ),
        ) == Ok::<_, SpecParseError>(SpecTlsExtension::SupportedGroups(gs)),
{
    let gb = groups_bytes(gs);
    let d = u16_bytes((2 * gs.len()) as u16) + gb;
    assert(d[0] == (((2 * gs.len()) as u16) / 256) as u8 && d[1] == (((2 * gs.len()) as u16) % 256)
        as u8);
    assert(d.skip(2).take(gb.len() as int) =~= gb);
    assert(u16_list(gb).map_values(|x: u16| NamedGroup(x)) =~= gs) by {
        assert forall|k: int| 0 <= k < gs.len() implies u16_list(gb).map_values(
            |x: u16| NamedGroup(x),
        )[k] == gs[k] by {
            assert(gb[2 * k] == (gs[k].0 / 256) as u8);
            assert(gb[2 * k + 1] == (gs[k].0 % 256) as u8);
        }
    }
    if gs.len() == 0 {
        assert(gs =~= Seq::<NamedGroup>::empty());
    }
}

/// A supported groups extension (a two-byte length and the groups) gives
/// the groups, in the client hello and generic tables.
pub proof fn law_supported_groups(ctx: Context, gs: Seq<NamedGroup>, tail: Seq<u8>)
    requires
        ctx is ClientHello || ctx is Any,
        gs.len() < 32767,
    ensures
        spec_extension(ctx, ext_bytes(10, u16_bytes((2 * gs.len()) as u16) + groups_bytes(gs)) + tail)
            == Ok::<_, SpecParseError>((tail, SpecTlsExtension::SupportedGroups(gs))),
{
    let d = u16_bytes((2 * gs.len()) as u16) + groups_bytes(gs);
    lemma_supported_groups_content(gs);
    lemma_types_not_grease();
    lemma_ext_bytes(ctx, 10, d, tail);
    match ctx {
        Context::ClientHello => {},
        Context::ServerHello => {},
        Context::Any => {},
    }
}

/// A server name extension without data (as a server sends it) is the empty
/// list, in every table.
pub proof fn law_server_name_empty(ctx: Context, tail: Seq<u8>)
    ensures
        spec_extension(ctx, ext_bytes(0, Seq::empty()) + tail) == Ok::<_, SpecParseError>(
            (tail, SpecTlsExtension::SNI(Seq::empty())),
        ),
{
    lemma_types_not_grease();
    lemma_ext_bytes(ctx, 0, Seq::empty(), tail);
    match ctx {
        Context::ClientHello => {},
        Context::ServerHello => {},
        Context::Any => {},
    }
}

/// The big-endian bytes of a 32-bit value.
pub open spec fn u32_bytes(x: u32) -> Seq<u8> {
    seq![(x / 16777216) as u8, ((x / 65536) % 256) as u8, ((x / 256) % 256) as u8, (x % 256) as u8]
}

/// The wire form of an encrypted client hello.
pub open spec fn ech_bytes(ch_type: u8, ciphersuite: u32, config_id: u8, enc: Seq<u8>, payload: Seq<u8>) -> Seq<u8> {
    seq![ch_type] + u32_bytes(ciphersuite) + seq![config_id] + u16_bytes(enc.len() as u16) + enc
        + u16_bytes(payload.len() as u16) + payload
}

#[verifier::rlimit(80)]
proof fn lemma_ech_content(
    ch_type: u8,
    ciphersuite: u32,
    config_id: u8,
    enc: Seq<u8>,
    payload: Seq<u8>,
)
    requires
        enc.len() < 65536,
        payload.len() < 65536,
    ensures
        value_of(
            spec_parse_tls_extension_encrypted_client_hello(
                ech_bytes(ch_type, ciphersuite, config_id, enc, payload),
            ),
        ) == Ok::<_, SpecParseError>(
            SpecTlsExtension::EncryptedClientHello { ch_type, ciphersuite, config_id, enc, payload },
        ),
{
    let b = ech_bytes(ch_type, ciphersuite, config_id, enc, payload);
    let r1 = b.skip(1);
    assert(r1 =~= u32_bytes(ciphersuite) + seq![config_id] + u16_bytes(enc.len() as u16) + enc
        + u16_bytes(payload.len() as u16) + payload);
    assert(r1[0] == (ciphersuite / 16777216) as u8 && r1[1] == ((ciphersuite / 65536) % 256) as u8
        && r1[2] == ((ciphersuite / 256) % 256) as u8 && r1[3] == (ciphersuite % 256) as u8);
    let r2 = r1.skip(4);
    assert(r2 =~= seq![config_id] + u16_bytes(enc.len() as u16) + enc + u16_bytes(payload.len() as u16)
        + payload);
    let r3 = r2.skip(1);
    assert(r3 =~= u16_bytes(enc.len() as u16) + enc + u16_bytes(payload.len() as u16) + payload);
    assert(r3.skip(2).take(enc.len() as int) =~= enc);
    let r4 = r3.skip(2).skip(enc.len() as int);
    assert(r4 =~= u16_bytes(payload.len() as u16) + payload);
    assert(r4.skip(2).take(payload.len() as int) =~= payload);
}

/// An encrypted client hello extension of a client hello gives its type,
/// cipher suite, config id, encapsulated key and payload.
#[verifier::rlimit(80)]
pub proof fn law_encrypted_client_hello(
    ch_type: u8,
    ciphersuite: u32,
    config_id: u8,
    enc: Seq<u8>,
    payload: Seq<u8>,
    tail: Seq<u8>,
)
    requires
        enc.len() + payload.len() + 10 < 65536,
    ensures
        spec_extension(
            Context::ClientHello,
            ext_bytes(0xfe0d, ech_bytes(ch_type, ciphersuite, config_id, enc, payload)) + tail,
        ) == Ok::<_, SpecParseError>(
            (
                tail,
                SpecTlsExtension::EncryptedClientHello {
                    ch_type,
                    ciphersuite,
                    config_id,
                    enc,
                    payload,
                },
            ),
        ),
{
    let d = ech_bytes(ch_type, ciphersuite, config_id, enc, payload);
    assert(d.len() == enc.len() + payload.len() + 10);
    lemma_ech_content(ch_type, ciphersuite, config_id, enc, payload);
    lemma_types_not_grease();
    assert(spec_extension_content(Context::ClientHello, 0xfe0d, d) == value_of(
        spec_parse_tls_extension_encrypted_client_hello(d),
    ));
    lemma_ext_bytes(Context::ClientHello, 0xfe0d, d, tail);
}

/// The wire form of an encrypted server name.
pub open spec fn esn_bytes(
    ciphersuite: u16,
    group: u16,
    key_share: Seq<u8>,
    record_digest: Seq<u8>,
    encrypted_sni: Seq<u8>,
) -> Seq<u8> {
    u16_bytes(ciphersuite) + u16_bytes(group) + u16_bytes(key_share.len() as u16) + key_share
        + u16_bytes(record_digest.len() as u16) + record_digest + u16_bytes(
        encrypted_sni.len() as u16,
    ) + encrypted_sni
}

#[verifier::rlimit(80)]
proof fn lemma_esn_content(
    cs: u16,
    g: u16,
    key_share: Seq<u8>,
    record_digest: Seq<u8>,
    encrypted_sni: Seq<u8>,
)
    requires
        key_share.len() < 65536,
        record_digest.len() < 65536,
        encrypted_sni.len() < 65536,
    ensures
        value_of(
            spec_parse_tls_extension_encrypted_server_name(
                esn_bytes(cs, g, key_share, record_digest, encrypted_sni),
            ),
        ) == Ok::<_, SpecParseError>(
            SpecTlsExtension::EncryptedServerName {
                ciphersuite: TlsCipherSuiteID(cs),
                group: NamedGroup(g),
                key_share,
                record_digest,
                encrypted_sni,
            },
        ),
{
    let b = esn_bytes(cs, g, key_share, record_digest, encrypted_sni);
    assert(b[0] == (cs / 256) as u8 && b[1] == (cs % 256) as u8);
    let r1 = b.skip(2);
    assert(r1 =~= u16_bytes(g) + u16_bytes(key_share.len() as u16) + key_share + u16_bytes(
        record_digest.len() as u16,
    ) + record_digest + u16_bytes(encrypted_sni.len() as u16) + encrypted_sni);
    let r2 = r1.skip(2);
    assert(r2 =~= u16_bytes(key_share.len() as u16) + key_share + u16_bytes(
        record_digest.len() as u16,
    ) + record_digest + u16_bytes(encrypted_sni.len() as u16) + encrypted_sni);
    assert(r2.skip(2).take(key_share.len() as int) =~= key_share);
    let r3 = r2.skip(2).skip(key_share.len() as int);
    assert(r3 =~= u16_bytes(record_digest.len() as u16) + record_digest + u16_bytes(
        encrypted_sni.len() as u16,
    ) + encrypted_sni);
    assert(r3.skip(2).take(record_digest.len() as int) =~= record_digest);
    let r4 = r3.skip(2).skip(record_digest.len() as int);
    assert(r4 =~= u16_bytes(encrypted_sni.len() as u16) + encrypted_sni);
    assert(r4.skip(2).take(encrypted_sni.len() as int) =~= encrypted_sni);
}

/// An encrypted server name extension gives its cipher suite, group, key
/// share, record digest and encrypted name, in the client hello and generic
/// tables.
#[verifier::rlimit(80)]
pub proof fn law_encrypted_server_name(
    ctx: Context,
    cs: u16,
    g: u16,
    key_share: Seq<u8>,
    record_digest: Seq<u8>,
    encrypted_sni: Seq<u8>,
    tail: Seq<u8>,
)
    requires
        ctx is ClientHello || ctx is Any,
        key_share.len() + record_digest.len() + encrypted_sni.len() + 10 < 65536,
    ensures
        spec_extension(ctx, ext_bytes(0xffce, esn_bytes(cs, g, key_share, record_digest, encrypted_sni)) + tail)
            == Ok::<_, SpecParseError>(
            (
                tail,
                SpecTlsExtension::EncryptedServerName {
                    ciphersuite: TlsCipherSuiteID(cs),
                    group: NamedGroup(g),
                    key_share,
                    record_digest,
                    encrypted_sni,
                },
            ),
        ),
{
    let d = esn_bytes(cs, g, key_share, record_digest, encrypted_sni);
    assert(d.len() == key_share.len() + record_digest.len() + encrypted_sni.len() + 10);
    lemma_esn_content(cs, g, key_share, record_digest, encrypted_sni);
    lemma_types_not_grease();
    assert(spec_extension_content(ctx, 0xffce, d) == value_of(
        spec_parse_tls_extension_encrypted_server_name(d),
    ));
    lemma_ext_bytes(ctx, 0xffce, d, tail);
}

/// How many bytes the fixed-width content of type `t` needs: one for a
/// maximum fragment length or a heartbeat mode, two for a record size limit,
/// four for an early data size; none for other types.
pub open spec fn fixed_width(t: u16) -> nat {
    if t == 1 || t == 15 {
        1
    } else if t == 28 {
        2
    } else if t == 42 {
        4
    } else {
        0
    }
}

/// An extension whose fixed-width content is cut short fails, asking for
/// the missing bytes, in every table. (An early data extension without any
/// data is the one exception: it has no size.)
pub proof fn law_short_fixed_content_fails(ctx: Context, t: u16, d: Seq<u8>, tail: Seq<u8>)
    requires
        d.len() < fixed_width(t),
        t == 42 ==> d.len() > 0,
    ensures
        spec_extension(ctx, ext_bytes(t, d) + tail) == Err::<(Seq<u8>, SpecTlsExtension), _>(
            SpecParseError::Incomplete((fixed_width(t) - d.len()) as usize),
        ),
{
    lemma_types_not_grease();
    lemma_ext_bytes(ctx, t, d, tail);
    match ctx {
        Context::ClientHello => {},
        Context::ServerHello => {},
        Context::Any => {},
    }
}

/// A renegotiation info extension whose length byte promises more than its
/// data holds (or that has no data at all) fails, asking for the missing
/// bytes, in every table.
pub proof fn law_renegotiation_info_truncated(ctx: Context, d: Seq<u8>, tail: Seq<u8>)
    requires
        d.len() < 65536,
        d.len() == 0 || d[0] as int > d.len() - 1,
    ensures
        spec_extension(ctx, ext_bytes(0xff01, d) + tail) == Err::<(Seq<u8>, SpecTlsExtension), _>(
            SpecParseError::Incomplete(
                (if d.len() == 0 {
                    1
                } else {
                    d[0] as int - (d.len() - 1)
                }) as usize,
            ),
        ),
{
    lemma_types_not_grease();
    lemma_ext_bytes(ctx, 0xff01, d, tail);
}

/// Each of the sixteen GREASE code points (0x0a0a, 0x1a1a, up to 0xfafa) is
/// kept as raw data with its code point, in every table.
pub proof fn law_grease_code_points(ctx: Context, k: u16, d: Seq<u8>, tail: Seq<u8>)
    requires
        k < 16,
        d.len() < 65536,
    ensures
        spec_extension(ctx, ext_bytes((0x0a0a + 0x1010 * k) as u16, d) + tail) == Ok::<
            _,
            SpecParseError,
        >((tail, SpecTlsExtension::Grease((0x0a0a + 0x1010 * k) as u16, d))),
{
    let t: u16 = (0x0a0a + 0x1010 * k) as u16;
    assert(((0x0a0a + 0x1010 * k) as u16) & 0x0f0f == 0x0a0a) by (bit_vector)
        requires
            k < 16,
    ;
    let s = ext_bytes(t, d) + tail;
    let n = d.len();
    assert(s[0] == (t / 256) as u8 && s[1] == (t % 256) as u8);
    assert(s.skip(2)[0] == ((n as u16) / 256) as u8 && s.skip(2)[1] == ((n as u16) % 256) as u8);
    assert(s.skip(2).skip(2).take(n as int) =~= d);
    assert(s.skip(2).skip(2).skip(n as int) =~= tail);
}

} // verus!
