use vstd::prelude::*;

verus! {

/// Why a parser rejected its input.
#[derive(Clone, Copy, Debug, PartialEq, Eq, Hash, Structural)]
pub enum ErrorKind {
    /// A fixed pair of bytes (an extension type) did not match.
    Tag,
    /// A parsed value failed a check (the heartbeat length must be 1).
    Verify,
    /// A list of 16-bit values had an odd length.
    LengthValue,
    /// A repeated element parser succeeded without consuming input.
    Many0,
}

/// The ways a parser can fail.
#[derive(Clone, Copy, Debug, PartialEq, Eq, Hash)]
pub enum ParseError<'a> {
    /// The input ended early: at least this many more bytes are needed.
    Incomplete(usize),
    /// The input does not follow the grammar: `input` is where the failing
    /// parser started, `code` says what failed.
    Error { input: &'a [u8], code: ErrorKind },
}

/// Model of a parse failure.
#[verifier::ext_equal]
pub enum SpecParseError {
    Incomplete(usize),
    Error { input: Seq<u8>, code: ErrorKind },
}

impl<'a> View for ParseError<'a> {
    type V = SpecParseError;

    open spec fn view(&self) -> SpecParseError {
        match *self {
            ParseError::Incomplete(n) => SpecParseError::Incomplete(n),
            ParseError::Error { input, code } => SpecParseError::Error { input: input@, code },
        }
    }
}

/// Result of an executable parser: the unparsed rest of the input and the
/// parsed value.
pub type IResult<'a, T> = Result<(&'a [u8], T), ParseError<'a>>;

/// Result of a specification parser over byte sequences.
pub type SpecResult<T> = Result<(Seq<u8>, T), SpecParseError>;

/// The mathematical meaning of an executable parse result.
pub open spec fn res_view<'a, T: View>(r: IResult<'a, T>) -> SpecResult<T::V> {
    match r {
        Ok((rest, v)) => Ok((rest@, v@)),
        Err(e) => Err(e@),
    }
}

/// The element-wise view of a vector.
pub open spec fn vec_view<T: View>(v: Vec<T>) -> Seq<T::V> {
    Seq::new(v@.len(), |k: int| v@[k]@)
}

/// The element-wise meaning of an executable parse result holding a vector.
pub open spec fn res_vec_view<'a, T: View>(r: IResult<'a, Vec<T>>) -> SpecResult<Seq<T::V>> {
    match r {
        Ok((rest, v)) => Ok((rest@, vec_view(v))),
        Err(e) => Err(e@),
    }
}

} // verus!
