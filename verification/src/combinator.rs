use vstd::prelude::*;
use vstd::slice::slice_subrange;
use crate::error::{ErrorKind, ParseError, SpecParseError, IResult, SpecResult, res_view, res_vec_view, vec_view};

verus! {

/// Big-endian value of two bytes.
pub open spec fn be16(a: u8, b: u8) -> u16 {
    (a * 256 + b) as u16
}

/// Big-endian value of four bytes.
pub open spec fn be32(a: u8, b: u8, c: u8, d: u8) -> u32 {
    (a * 16777216 + b * 65536 + c * 256 + d) as u32
}

/// One byte.
pub open spec fn spec_be_u8(s: Seq<u8>) -> SpecResult<u8> {
    if s.len() < 1 {
        Err(SpecParseError::Incomplete(1))
    } else {
        Ok((s.skip(1), s[0]))
    }
}

/// A big-endian 16-bit integer.
pub open spec fn spec_be_u16(s: Seq<u8>) -> SpecResult<u16> {
    if s.len() < 2 {
        Err(SpecParseError::Incomplete((2 - s.len()) as usize))
    } else {
        Ok((s.skip(2), be16(s[0], s[1])))
    }
}

/// A big-endian 32-bit integer.
pub open spec fn spec_be_u32(s: Seq<u8>) -> SpecResult<u32> {
    if s.len() < 4 {
        Err(SpecParseError::Incomplete((4 - s.len()) as usize))
    } else {
        Ok((s.skip(4), be32(s[0], s[1], s[2], s[3])))
    }
}

/// The next `n` bytes.
pub open spec fn spec_take(s: Seq<u8>, n: nat) -> SpecResult<Seq<u8>> {
    if s.len() < n {
        Err(SpecParseError::Incomplete((n - s.len()) as usize))
    } else {
        Ok((s.skip(n as int), s.take(n as int)))
    }
}

/// Bytes preceded by a one-byte length.
pub open spec fn spec_length_data_u8(s: Seq<u8>) -> SpecResult<Seq<u8>> {
    match spec_be_u8(s) {
        Err(e) => Err(e),
        Ok((r, n)) => spec_take(r, n as nat),
    }
}

/// Bytes preceded by a two-byte big-endian length.
pub open spec fn spec_length_data_u16(s: Seq<u8>) -> SpecResult<Seq<u8>> {
    match spec_be_u16(s) {
        Err(e) => Err(e),
        Ok((r, n)) => spec_take(r, n as nat),
    }
}

/// The two fixed bytes `a`, `b`. A mismatch in the bytes present is an
/// error; a matching but too short input asks for more.
pub open spec fn spec_tag(s: Seq<u8>, a: u8, b: u8) -> SpecResult<()> {
    if (s.len() >= 1 && s[0] != a) || (s.len() >= 2 && s[1] != b) {
        Err(SpecParseError::Error { input: s, code: ErrorKind::Tag })
    } else if s.len() < 2 {
        Err(SpecParseError::Incomplete((2 - s.len()) as usize))
    } else {
        Ok((s.skip(2), ()))
    }
}

/// `p` applied as often as it succeeds, the values collected in order.
/// Any failure of `p`, a malformed element as well as a truncated one,
/// ends the repetition and leaves the input where that element began; an
/// element that consumes nothing is an error. Every element parser of this
/// crate returns a suffix of its input, so the rest is never longer.
pub open spec fn spec_many0_complete<T>(
    p: spec_fn(Seq<u8>) -> SpecResult<T>,
    s: Seq<u8>,
) -> SpecResult<Seq<T>>
    decreases s.len(),
{
    match p(s) {
        Err(_) => Ok((s, Seq::empty())),
        Ok((r, v)) => if r.len() < s.len() {
            match spec_many0_complete(p, r) {
                Ok((r2, vs)) => Ok((r2, seq![v] + vs)),
                Err(e) => Err(e),
            }
        } else {
            Err(SpecParseError::Error { input: s, code: ErrorKind::Many0 })
        },
    }
}

/// Runs `inner` on the bytes that `outer` delimited; the rest is what
/// `outer` left, whatever `inner` left unread of its part.
pub open spec fn spec_map_parser<T>(
    outer: SpecResult<Seq<u8>>,
    inner: spec_fn(Seq<u8>) -> SpecResult<T>,
) -> SpecResult<T> {
    match outer {
        Err(e) => Err(e),
        Ok((r, d)) => match inner(d) {
            Err(e) => Err(e),
            Ok((_, v)) => Ok((r, v)),
        },
    }
}

/// The parsed value of a result, without the rest of the input.
pub open spec fn value_of<T>(r: SpecResult<T>) -> Result<T, SpecParseError> {
    match r {
        Err(e) => Err(e),
        Ok((_, v)) => Ok(v),
    }
}

/// Parses one byte.
pub fn be_u8<'a>(i: &'a [u8]) -> (res: IResult<'a, u8>)
    ensures
        res_view(res) == spec_be_u8(i@),
{
    if i.len() < 1 {
        Err(ParseError::Incomplete(1))
    } else {
        Ok((slice_subrange(i, 1, i.len()), i[0]))
    }
}

/// Parses a big-endian 16-bit integer.
pub fn be_u16<'a>(i: &'a [u8]) -> (res: IResult<'a, u16>)
    ensures
        res_view(res) == spec_be_u16(i@),
{
    if i.len() < 2 {
        Err(ParseError::Incomplete(2 - i.len()))
    } else {
        let v: u16 = (i[0] as u16) * 256 + (i[1] as u16);
        Ok((slice_subrange(i, 2, i.len()), v))
    }
}

/// Parses a big-endian 32-bit integer.
pub fn be_u32<'a>(i: &'a [u8]) -> (res: IResult<'a, u32>)
    ensures
        res_view(res) == spec_be_u32(i@),
{
    if i.len() < 4 {
        Err(ParseError::Incomplete(4 - i.len()))
    } else {
        let v: u32 = (i[0] as u32) * 16777216 + (i[1] as u32) * 65536 + (i[2] as u32) * 256
            + (i[3] as u32);
        Ok((slice_subrange(i, 4, i.len()), v))
    }
}

/// Takes the next `n` bytes.
pub fn take<'a>(i: &'a [u8], n: usize) -> (res: IResult<'a, &'a [u8]>)
    ensures
        res_view(res) == spec_take(i@, n as nat),
{
    if i.len() < n {
        Err(ParseError::Incomplete(n - i.len()))
    } else {
        Ok((slice_subrange(i, n, i.len()), slice_subrange(i, 0, n)))
    }
}

/// Takes bytes preceded by a one-byte length.
pub fn length_data_u8<'a>(i: &'a [u8]) -> (res: IResult<'a, &'a [u8]>)
    ensures
        res_view(res) == spec_length_data_u8(i@),
{
    let (r, n) = be_u8(i)?;
    take(r, n as usize)
}

/// Takes bytes preceded by a two-byte big-endian length.
pub fn length_data_u16<'a>(i: &'a [u8]) -> (res: IResult<'a, &'a [u8]>)
    ensures
        res_view(res) == spec_length_data_u16(i@),
{
    let (r, n) = be_u16(i)?;
    take(r, n as usize)
}

/// Matches the two fixed bytes `a`, `b`.
pub fn tag<'a>(i: &'a [u8], a: u8, b: u8) -> (res: IResult<'a, ()>)
    ensures
        res_view(res) == spec_tag(i@, a, b),
{
    if (i.len() >= 1 && i[0] != a) || (i.len() >= 2 && i[1] != b) {
        Err(ParseError::Error { input: i, code: ErrorKind::Tag })
    } else if i.len() < 2 {
        Err(ParseError::Incomplete(2 - i.len()))
    } else {
        Ok((slice_subrange(i, 2, i.len()), ()))
    }
}

/// `vs` placed in front of the values of a successful result.
pub open spec fn prepend_ok<T>(vs: Seq<T>, r: SpecResult<Seq<T>>) -> SpecResult<Seq<T>> {
    match r {
        Ok((rest, ws)) => Ok((rest, vs + ws)),
        Err(e) => Err(e),
    }
}

/// Applies `f` as often as it succeeds; `p` is what `f` computes.
pub fn many0_complete<'a, T: View, F: Fn(&'a [u8]) -> IResult<'a, T>>(
    f: F,
    Ghost(p): Ghost<spec_fn(Seq<u8>) -> SpecResult<T::V>>,
    i: &'a [u8],
) -> (res: IResult<'a, Vec<T>>)
    requires
        forall|x: &'a [u8]| #[trigger] f.requires((x,)),
        forall|x: &'a [u8], r: IResult<'a, T>| #[trigger] f.ensures((x,), r) ==> res_view(r) == p(x@),
    ensures
        res_vec_view(res) == spec_many0_complete(p, i@),
{
    let mut acc: Vec<T> = Vec::new();
    let mut cur: &'a [u8] = i;
    assert(spec_many0_complete(p, i@) == prepend_ok(vec_view(acc), spec_many0_complete(p, cur@))) by {
        match spec_many0_complete(p, i@) {
            Ok((r, ws)) => assert(vec_view(acc) + ws =~= ws),
            Err(_) => {},
        }
    }
    loop
        invariant
            forall|x: &'a [u8]| #[trigger] f.requires((x,)),
            forall|x: &'a [u8], r: IResult<'a, T>| #[trigger] f.ensures((x,), r) ==> res_view(r) == p(x@),
            spec_many0_complete(p, i@) == prepend_ok(vec_view(acc), spec_many0_complete(p, cur@)),
        decreases cur@.len(),
    {
        let ghost before = vec_view(acc);
        match f(cur) {
            Err(_) => {
                assert(before + Seq::<T::V>::empty() =~= before);
                return Ok((cur, acc));
            },
            Ok((r, v)) => {
                if r.len() >= cur.len() {
                    return Err(ParseError::Error { input: cur, code: ErrorKind::Many0 });
                }
                let ghost tail = spec_many0_complete(p, r@);
                let ghost vv = v@;
                acc.push(v);
                assert(vec_view(acc) =~= before.push(vv));
                proof {
                    match tail {
                        Ok((r2, ws)) => {
                            assert(before + (seq![vv] + ws) =~= before.push(vv) + ws);
                        },
                        Err(_) => {},
                    }
                }
                cur = r;
            },
        }
    }
}

} // verus!
