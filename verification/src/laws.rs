//! Properties of the extension parsers as a whole, proved over the
//! specification that every parser is verified against.
use vstd::prelude::*;
use vstd::std_specs::convert::FromSpec;
use crate::error::{SpecParseError, SpecResult};
use crate::combinator::{be16, prepend_ok, spec_many0_complete};
use crate::grammar::{
    spec_parse_tls_extension_ec_point_formats, spec_parse_tls_extension_pre_shared_key,
    spec_parse_tls_extension_heartbeat,
    Context, extension_fn, is_grease, keyshare_entry_fn, listed_type, oid_filter_fn,
    protocol_name_fn, signature_scheme_fn, sni_hostname_fn, spec_extension,
    spec_extension_content, spec_extensions, spec_parse_keyshare_entry,
    spec_parse_protocol_name, spec_parse_tls_extension_alpn_content,
    spec_parse_tls_extension_client_shares_content,
    spec_parse_tls_extension_compress_certificate, spec_parse_tls_extension_cookie,
    spec_parse_tls_extension_early_data, spec_parse_tls_extension_encrypt_then_mac,
    spec_parse_tls_extension_extended_master_secret, spec_parse_tls_extension_key_share,
    spec_parse_tls_extension_max_fragment_length, spec_parse_tls_extension_oid_filters,
    spec_parse_tls_extension_psk_key_exchange_modes, spec_parse_tls_extension_session_ticket,
    spec_parse_tls_extension_signature_algorithms,
    spec_parse_tls_extension_signature_algorithms_content, spec_parse_tls_extension_sni,
    spec_parse_tls_extension_sni_content, spec_parse_tls_extension_sni_hostname,
    spec_parse_tls_extension_status_request, spec_parse_tls_extension_supported_groups,
    spec_parse_tls_extension_supported_versions, spec_parse_tls_extension_unknown,
    spec_parse_tls_oid_filter,
};
use crate::tls_common::spec_parse_signature_scheme;
use crate::tls_extensions::{SpecTlsExtension, TlsExtensionType, spec_extension_type};

verus! {

/// An extension that parses took its four header bytes and exactly as many
/// data bytes as its length field says; the rest of the input is what
/// follows. A shorter input asks for the missing bytes.
pub proof fn law_extension_framing(ctx: Context, s: Seq<u8>)
    ensures
        spec_extension(ctx, s) matches Ok((rest, _)) ==> s.len() >= 4 + be16(s[2], s[3]) && rest
            =~= s.skip(4 + be16(s[2], s[3])),
        s.len() < 2 ==> spec_extension(ctx, s) == Err::<(Seq<u8>, SpecTlsExtension), _>(
            SpecParseError::Incomplete((2 - s.len()) as usize),
        ),
        2 <= s.len() < 4 ==> spec_extension(ctx, s) == Err::<(Seq<u8>, SpecTlsExtension), _>(
            SpecParseError::Incomplete((4 - s.len()) as usize),
        ),
        4 <= s.len() < 4 + be16(s[2], s[3]) ==> spec_extension(ctx, s) == Err::<
            (Seq<u8>, SpecTlsExtension),
            _,
        >(SpecParseError::Incomplete((4 + be16(s[2], s[3]) - s.len()) as usize)),
{
}

/// A complete extension whose type is a GREASE value is returned as raw
/// data, whatever the table.
pub proof fn law_grease_kept_raw(ctx: Context, s: Seq<u8>)
    requires
        s.len() >= 4 + be16(s[2], s[3]),
        is_grease(be16(s[0], s[1])),
    ensures
        spec_extension(ctx, s) == Ok::<_, SpecParseError>(
            (
                s.skip(4 + be16(s[2], s[3])),
                SpecTlsExtension::Grease(be16(s[0], s[1]), s.subrange(4, 4 + be16(s[2], s[3]))),
            ),
        ),
{
    assert(s.skip(2).skip(2).take(be16(s[2], s[3]) as int) =~= s.subrange(4, 4 + be16(s[2], s[3])));
    assert(s.skip(2).skip(2).skip(be16(s[2], s[3]) as int) =~= s.skip(4 + be16(s[2], s[3])));
}

/// A complete extension of a type that the table does not read (and that
/// is not GREASE) is returned unparsed, with its type and data, as the
/// parser of unknown extensions returns it.
pub proof fn law_unlisted_type_kept_raw(ctx: Context, s: Seq<u8>)
    requires
        s.len() >= 4 + be16(s[2], s[3]),
        !is_grease(be16(s[0], s[1])),
        !listed_type(ctx, be16(s[0], s[1])),
    ensures
        spec_extension(ctx, s) == spec_parse_tls_extension_unknown(s),
        spec_extension(ctx, s) == Ok::<_, SpecParseError>(
            (
                s.skip(4 + be16(s[2], s[3])),
                SpecTlsExtension::Unknown(
                    TlsExtensionType(be16(s[0], s[1])),
                    s.subrange(4, 4 + be16(s[2], s[3])),
                ),
            ),
        ),
{
    assert(s.skip(2).skip(2).take(be16(s[2], s[3]) as int) =~= s.subrange(4, 4 + be16(s[2], s[3])));
    assert(s.skip(2).skip(2).skip(be16(s[2], s[3]) as int) =~= s.skip(4 + be16(s[2], s[3])));
}

/// The type of a parsed extension value is the type written on the wire.
/// This holds for the client hello and server hello tables, and for the
/// generic table except at type 51, which it reads as the older key share
/// form (type 40). GREASE values are left out: they all map to one type.
pub proof fn law_parsed_type_is_wire_type(ctx: Context, s: Seq<u8>)
    requires
        s.len() >= 2,
        !is_grease(be16(s[0], s[1])),
        ctx is Any ==> be16(s[0], s[1]) != 51,
    ensures
        spec_extension(ctx, s) matches Ok((_, ext)) ==> spec_extension_type(ext) == TlsExtensionType(
            be16(s[0], s[1]),
        ),
{
    let t = be16(s[0], s[1]);
    if s.len() >= 4 + be16(s[2], s[3]) {
        lemma_content_type(ctx, t, s.skip(2).skip(2).take(be16(s[2], s[3]) as int));
    }
}

/// What a table parses from the content of type `t` has type `t`.
proof fn lemma_content_type(ctx: Context, t: u16, data: Seq<u8>)
    requires
        ctx is Any ==> t != 51,
    ensures
        spec_extension_content(ctx, t, data) matches Ok(ext) ==> spec_extension_type(ext)
            == TlsExtensionType(t),
{
    match ctx {
        Context::ClientHello => {},
        Context::ServerHello => {},
        Context::Any => {},
    }
}

/// `r` is what remains of `s` after some of its first bytes.
pub open spec fn is_suffix(r: Seq<u8>, s: Seq<u8>) -> bool {
    r.len() <= s.len() && r =~= s.skip(s.len() - r.len())
}

/// A success on `x` consumed at least one byte and left a suffix.
pub open spec fn progress<T>(res: SpecResult<T>, x: Seq<u8>) -> bool {
    match res {
        Ok((r, _)) => r.len() < x.len() && is_suffix(r, x),
        Err(_) => true,
    }
}

/// Every success of `p` consumes at least one byte and leaves a suffix.
pub open spec fn productive<T>(p: spec_fn(Seq<u8>) -> SpecResult<T>) -> bool {
    forall|x: Seq<u8>| #[trigger] progress(p(x), x)
}

/// With a productive element parser, repetition never fails, leaves a
/// suffix of its input, and stops where the element parser fails.
pub proof fn lemma_many0_productive<T>(p: spec_fn(Seq<u8>) -> SpecResult<T>, s: Seq<u8>)
    requires
        productive(p),
    ensures
        spec_many0_complete(p, s) is Ok,
        spec_many0_complete(p, s) matches Ok((rest, _)) ==> p(rest) is Err && is_suffix(rest, s),
    decreases s.len(),
{
    assert(progress(p(s), s));
    match p(s) {
        Ok((r, v)) => {
            lemma_many0_productive(p, r);
            match spec_many0_complete(p, r) {
                Ok((rest, _)) => {
                    assert(rest =~= s.skip(s.len() - rest.len()));
                },
                Err(_) => {},
            }
        },
        Err(_) => {
            assert(s =~= s.skip(0));
        },
    }
}

/// Parsing a sequence of extensions never fails: it reads extensions one
/// after another and stops, leaving the rest of the input, at the first
/// place where no complete extension parses (the end of the input among
/// them).
pub proof fn law_extensions_never_fail(ctx: Context, s: Seq<u8>)
    ensures
        spec_extensions(ctx, s) is Ok,
        spec_extensions(ctx, s) matches Ok((rest, _)) ==> spec_extension(ctx, rest) is Err
            && is_suffix(rest, s),
{
    assert forall|x: Seq<u8>| #[trigger] progress(extension_fn(ctx)(x), x) by {
        law_extension_framing(ctx, x);
        if let Ok((r, _)) = spec_extension(ctx, x) {
            assert(r =~= x.skip(x.len() - r.len()));
        }
    }
    lemma_many0_productive(extension_fn(ctx), s);
}

/// The element parsers of the list-shaped contents each consume at least
/// one byte.
proof fn lemma_element_parsers_productive()
    ensures
        productive(sni_hostname_fn()),
        productive(signature_scheme_fn()),
        productive(protocol_name_fn()),
        productive(oid_filter_fn()),
        productive(keyshare_entry_fn()),
{
    assert forall|x: Seq<u8>| #[trigger] progress(sni_hostname_fn()(x), x) by {
        if let Ok((r, _)) = spec_parse_tls_extension_sni_hostname(x) {
            assert(r =~= x.skip(x.len() - r.len()));
        }
    }
    assert forall|x: Seq<u8>| #[trigger] progress(signature_scheme_fn()(x), x) by {
        if let Ok((r, _)) = spec_parse_signature_scheme(x) {
            assert(r =~= x.skip(x.len() - r.len()));
        }
    }
    assert forall|x: Seq<u8>| #[trigger] progress(protocol_name_fn()(x), x) by {
        if let Ok((r, _)) = spec_parse_protocol_name(x) {
            assert(r =~= x.skip(x.len() - r.len()));
        }
    }
    assert forall|x: Seq<u8>| #[trigger] progress(oid_filter_fn()(x), x) by {
        if let Ok((r, _)) = spec_parse_tls_oid_filter(x) {
            assert(r =~= x.skip(x.len() - r.len()));
        }
    }
    assert forall|x: Seq<u8>| #[trigger] progress(keyshare_entry_fn()(x), x) by {
        if let Ok((r, _)) = spec_parse_keyshare_entry(x) {
            assert(r =~= x.skip(x.len() - r.len()));
        }
    }
}

/// The list-shaped contents (server names, signature algorithms, protocol
/// names, OID filters, client key shares) fail only when their input is
/// truncated: a malformed element just ends the list.
pub proof fn law_list_contents_fail_only_when_truncated(s: Seq<u8>)
    ensures
        spec_parse_tls_extension_sni_content(s) matches Err(e) ==> e is Incomplete,
        spec_parse_tls_extension_signature_algorithms_content(s) matches Err(e) ==> e is Incomplete,
        spec_parse_tls_extension_alpn_content(s) matches Err(e) ==> e is Incomplete,
        spec_parse_tls_extension_oid_filters(s) matches Err(e) ==> e is Incomplete,
        spec_parse_tls_extension_client_shares_content(s) matches Err(e) ==> e is Incomplete,
{
    lemma_element_parsers_productive();
    assert forall|d: Seq<u8>|
        #![trigger spec_many0_complete(sni_hostname_fn(), d)]
        #![trigger spec_many0_complete(signature_scheme_fn(), d)]
        #![trigger spec_many0_complete(protocol_name_fn(), d)]
        #![trigger spec_many0_complete(oid_filter_fn(), d)]
        #![trigger spec_many0_complete(keyshare_entry_fn(), d)]
        spec_many0_complete(sni_hostname_fn(), d) is Ok && spec_many0_complete(
            signature_scheme_fn(),
            d,
        ) is Ok && spec_many0_complete(protocol_name_fn(), d) is Ok && spec_many0_complete(
            oid_filter_fn(),
            d,
        ) is Ok && spec_many0_complete(keyshare_entry_fn(), d) is Ok by {
        lemma_many0_productive(sni_hostname_fn(), d);
        lemma_many0_productive(signature_scheme_fn(), d);
        lemma_many0_productive(protocol_name_fn(), d);
        lemma_many0_productive(oid_filter_fn(), d);
        lemma_many0_productive(keyshare_entry_fn(), d);
    }
}

/// Each parser of one extension type (which first checks the type bytes)
/// gives what the generic extension parser gives on the same input, when
/// the input starts with that type. The key share parser agrees with the
/// generic one in keeping the content as raw bytes. The heartbeat parser
/// also checks that the length is 1, so it agrees when the header is short
/// or the length is 1.
pub proof fn law_typed_parsers_agree_with_generic(s: Seq<u8>)
    requires
        s.len() >= 2,
        s[0] == 0x00,
    ensures
        s[1] == 0x00 ==> spec_parse_tls_extension_sni(s) == spec_extension(Context::Any, s),
        s[1] == 0x01 ==> spec_parse_tls_extension_max_fragment_length(s) == spec_extension(Context::Any, s),
        s[1] == 0x05 ==> spec_parse_tls_extension_status_request(s) == spec_extension(Context::Any, s),
        s[1] == 0x0a ==> spec_parse_tls_extension_supported_groups(s) == spec_extension(Context::Any, s),
        s[1] == 0x0d ==> spec_parse_tls_extension_signature_algorithms(s) == spec_extension(Context::Any, s),
        s[1] == 0x16 ==> spec_parse_tls_extension_encrypt_then_mac(s) == spec_extension(Context::Any, s),
        s[1] == 0x17 ==> spec_parse_tls_extension_extended_master_secret(s) == spec_extension(Context::Any, s),
        s[1] == 0x1b ==> spec_parse_tls_extension_compress_certificate(s) == spec_extension(Context::Any, s),
        s[1] == 0x23 ==> spec_parse_tls_extension_session_ticket(s) == spec_extension(Context::Any, s),
        s[1] == 0x2a ==> spec_parse_tls_extension_early_data(s) == spec_extension(Context::Any, s),
        s[1] == 0x2b ==> spec_parse_tls_extension_supported_versions(s) == spec_extension(Context::Any, s),
        s[1] == 0x2c ==> spec_parse_tls_extension_cookie(s) == spec_extension(Context::Any, s),
        s[1] == 0x2d ==> spec_parse_tls_extension_psk_key_exchange_modes(s) == spec_extension(Context::Any, s),
        s[1] == 0x0b ==> spec_parse_tls_extension_ec_point_formats(s) == spec_extension(Context::Any, s),
        s[1] == 0x29 ==> spec_parse_tls_extension_pre_shared_key(s) == spec_extension(Context::Any, s),
        s[1] == 0x0f && (s.len() < 4 || be16(s[2], s[3]) == 1) ==> spec_parse_tls_extension_heartbeat(s)
            == spec_extension(Context::Any, s),
        s[1] == 0x33 ==> spec_parse_tls_extension_key_share(s) == spec_extension(Context::Any, s),
{
    lemma_small_types_not_grease();
    assert(be16(s[0], s[1]) == s[1] as u16);
}

/// No type below 256 is a GREASE value.
pub proof fn lemma_small_types_not_grease()
    ensures
        forall|t: u16| t < 256 ==> !#[trigger] is_grease(t),
{
    assert(forall|t: u16| t < 256 ==> (t & 0x0f0f) != 0x0a0a) by (bit_vector);
}

/// An extension type made from a code point converts back to that code
/// point.
pub proof fn law_extension_type_u16_roundtrip(t: u16)
    ensures
        <u16 as FromSpec<TlsExtensionType>>::from_spec(TlsExtensionType(t)) == t,
{
}

/// The client hello table and the generic table read every extension type
/// alike, except key shares (types 40 and 51), QUIC transport parameters
/// (57) and encrypted client hello (0xfe0d).
pub proof fn law_client_hello_table_agrees_with_generic(s: Seq<u8>)
    requires
        s.len() >= 2,
        be16(s[0], s[1]) != 40,
        be16(s[0], s[1]) != 51,
        be16(s[0], s[1]) != 57,
        be16(s[0], s[1]) != 0xfe0d,
    ensures
        spec_extension(Context::ClientHello, s) == spec_extension(Context::Any, s),
{
}

/// Parsing an extension depends only on its own bytes: what follows it is
/// left as the rest, untouched.
pub proof fn law_extension_ignores_what_follows(ctx: Context, a: Seq<u8>, b: Seq<u8>)
    ensures
        spec_extension(ctx, a) matches Ok((r, e)) ==> spec_extension(ctx, a + b) == Ok::<
            _,
            SpecParseError,
        >((r + b, e)),
{
    law_extension_framing(ctx, a);
    if let Ok((r, e)) = spec_extension(ctx, a) {
        let n = be16(a[2], a[3]);
        let ab = a + b;
        assert(ab[0] == a[0] && ab[1] == a[1] && ab[2] == a[2] && ab[3] == a[3]);
        assert(ab.skip(2).skip(2).take(n as int) =~= a.skip(2).skip(2).take(n as int));
        assert(ab.skip(2).skip(2).skip(n as int) =~= a.skip(2).skip(2).skip(n as int) + b);
    }
}

/// An encoded extension followed by more input parses, as a sequence, to
/// that extension followed by what the rest parses to.
pub proof fn law_extensions_of_concatenation(
    ctx: Context,
    a: Seq<u8>,
    e: SpecTlsExtension,
    b: Seq<u8>,
)
    requires
        spec_extension(ctx, a) == Ok::<_, SpecParseError>((Seq::<u8>::empty(), e)),
    ensures
        spec_extensions(ctx, a + b) == prepend_ok(seq![e], spec_extensions(ctx, b)),
{
    law_extension_ignores_what_follows(ctx, a, b);
    law_extension_framing(ctx, a);
    assert(Seq::<u8>::empty() + b =~= b);
}

/// A sequence of extensions is read back to back: when an extension parses
/// at the start (taking at least its four header bytes), the sequence is
/// that extension followed by the sequence read from where it ended; when
/// none parses, the sequence is empty and nothing is consumed.
pub proof fn law_extensions_chain(ctx: Context, s: Seq<u8>)
    ensures
        spec_extension(ctx, s) matches Ok((r, e)) ==> r.len() + 4 <= s.len() && spec_extensions(
            ctx,
            s,
        ) == prepend_ok(seq![e], spec_extensions(ctx, r)),
        spec_extension(ctx, s) is Err ==> spec_extensions(ctx, s) == Ok::<_, SpecParseError>(
            (s, Seq::<SpecTlsExtension>::empty()),
        ),
{
    law_extension_framing(ctx, s);
}

/// Every type that a table reads is decoded: parsing an extension of such a
/// type never gives it back as an unknown extension. The types each table
/// reads: client hello 0, 1, 5, 10, 11, 13, 15, 16, 18, 21, 22, 23, 27, 28,
/// 35, 41 to 45, 48, 49, 51, 57, 13172, 0xff01, 0xfe0d, 0xffce; server hello
/// 0, 1, 5, 11, 13, 15, 16, 18, 21, 22, 23, 27, 28, 35, 41 to 44, 51, 13172,
/// 0xff01; any message 0, 1, 5, 10, 11, 13, 15, 16, 18, 21, 22, 23, 27, 28,
/// 35, 40 to 45, 48, 49, 51, 13172, 0xff01, 0xffce.
pub proof fn law_read_types_are_decoded(ctx: Context, s: Seq<u8>, t: u16, ext: SpecTlsExtension)
    requires
        s.len() >= 2,
        t == be16(s[0], s[1]),
        spec_extension(ctx, s) matches Ok((_, e)) && e == ext,
    ensures
        ctx is ClientHello && (t == 0 || t == 1 || t == 5 || t == 10 || t == 11 || t == 13 || t == 15 || t == 16 || t == 18 || t == 21 || t == 22 || t == 23 || t == 27 || t == 28 || t == 35 || t == 41 || t == 42 || t == 43 || t == 44 || t == 45 || t == 48 || t == 49 || t == 51 || t == 57 || t == 0x3374 || t == 0xff01 || t == 0xfe0d || t == 0xffce) ==> !(ext is Unknown),
        ctx is ServerHello && (t == 0 || t == 1 || t == 5 || t == 11 || t == 13 || t == 15 || t == 16 || t == 18 || t == 21 || t == 22 || t == 23 || t == 27 || t == 28 || t == 35 || t == 41 || t == 42 || t == 43 || t == 44 || t == 51 || t == 0x3374 || t == 0xff01) ==> !(ext is Unknown),
        ctx is Any && (t == 0 || t == 1 || t == 5 || t == 10 || t == 11 || t == 13 || t == 15 || t == 16 || t == 18 || t == 21 || t == 22 || t == 23 || t == 27 || t == 28 || t == 35 || t == 40 || t == 41 || t == 42 || t == 43 || t == 44 || t == 45 || t == 48 || t == 49 || t == 51 || t == 0x3374 || t == 0xff01 || t == 0xffce) ==> !(ext is Unknown),
{
    if !is_grease(t) {
        if s.len() >= 4 + be16(s[2], s[3]) {
            lemma_content_decoded(ctx, t, s.skip(2).skip(2).take(be16(s[2], s[3]) as int));
        }
    }
}

/// What a table parses from the content of a type it reads is not unknown.
proof fn lemma_content_decoded(ctx: Context, t: u16, data: Seq<u8>)
    ensures
        spec_extension_content(ctx, t, data) matches Ok(ext) && ext is Unknown ==> !listed_type(
            ctx,
            t,
        ),
{
    match ctx {
        Context::ClientHello => {},
        Context::ServerHello => {},
        Context::Any => {},
    }
}

} // verus!
