//! The boundary to the term codec: the outside types that pass through the
//! library, and decoding a payload without letting the parser abort.

use vstd::prelude::*;
use erlang_term::RawTerm;
use crate::error::{EiError, EiResult};
use crate::etf::{is_safe_to_parse, safe_to_parse};

verus! {

/// A term as the external term format spells it. The library carries such a
/// value through and never looks inside.
#[verifier::external_type_specification]
#[verifier::external_body]
pub struct ExRawTerm(erlang_term::RawTerm);

/// A term as the language above the format sees it.
#[verifier::external_type_specification]
#[verifier::external_body]
pub struct ExTerm(erlang_term::Term);

/// How a parser of the codec fails.
#[verifier::external_type_specification]
#[verifier::external_body]
#[verifier::reject_recursive_types(E)]
pub struct ExParseFailure<E>(nom::Err<E>);

/// Where and why a parser of the codec failed.
#[verifier::external_type_specification]
#[verifier::external_body]
#[verifier::reject_recursive_types(I)]
pub struct ExParseError<I>(nom::error::Error<I>);

/// The term that the codec reads from `bytes`, if it reads one.
pub uninterp spec fn parsed_term(bytes: Seq<u8>) -> Option<RawTerm>;

/// [`RawTerm::from_bytes`]: what it returns depends on the bytes alone, and
/// it returns on every payload that is [`safe_to_parse`]. On others it aborts
/// where it unwraps a text, a sign or an index that is not there, or may nest
/// its calls deeper than the stack allows.
#[verifier::external_body]
fn from_bytes<'a>(input: &'a [u8]) -> (r: Result<RawTerm, nom::Err<nom::error::Error<&'a [u8]>>>)
    requires
        safe_to_parse(input@),
    ensures
        r matches Ok(term) ==> parsed_term(input@) == Some(term),
        r is Err ==> parsed_term(input@) is None,
{
    RawTerm::from_bytes(input)
}

/// What a payload decodes to: the term that the codec reads from it, and a
/// decode failure where the codec reads none or could not be asked.
pub open spec fn decode_spec(bytes: Seq<u8>) -> EiResult<RawTerm> {
    if safe_to_parse(bytes) {
        match parsed_term(bytes) {
            Some(term) => Ok(term),
            None => Err(EiError::Decode),
        }
    } else {
        Err(EiError::Decode)
    }
}

/// The result of a decode, given what the parser said: its term, or a decode
/// failure in place of its error.
pub fn decoded<E>(parsed: Result<RawTerm, E>) -> (r: EiResult<RawTerm>)
    ensures
        match parsed {
            Ok(term) => r == Ok::<RawTerm, EiError>(term),
            Err(_) => r == Err::<RawTerm, EiError>(EiError::Decode),
        },
{
    match parsed {
        Ok(term) => Ok(term),
        Err(_) => Err(EiError::Decode),
    }
}

/// Decodes a payload. A payload on which the parser would abort is refused
/// as malformed without being handed to it.
pub fn decode(bytes: &[u8]) -> (r: EiResult<RawTerm>)
    ensures
        r == decode_spec(bytes@),
{
    if is_safe_to_parse(bytes) {
        decoded(from_bytes(bytes))
    } else {
        Err(EiError::Decode)
    }
}

} // verus!
