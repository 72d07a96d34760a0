//! The trusted boundary around the wire codec and the protocol-definition
//! crate.
//!
//! The wire grammar, the request/outcome envelope shapes and the value
//! conversions are owned by the outside crates `wimcm` and `wjp`, and the
//! expiry timestamp by `wbdl`.  This module declares their types, names
//! their deterministic results, and wraps the calls the client logic makes;
//! everything else in the library is proved against the contracts here.
//!
//! The names below (`store_input`, `parsed_outcome`, ...) stand for results
//! that are functions of their arguments alone but whose exact value only
//! the outside crates define.  The one thing deliberately not named is the
//! encoded request text: the encoder walks a hash map, so two encodings of
//! one request may order its keys differently.

use vstd::prelude::*;

use crate::scan::literals_closed;
use wjp::Deserialize;
use wjp::Serialize;

verus! {

// ---------------------------------------------------------------------
// Declared outside types.  Each is opaque: the logic carries its values
// through and reads them only by the wrapped calls below.
// ---------------------------------------------------------------------

/// `wjp::Values`, the codec's structured payload value.
#[verifier::external_type_specification]
#[verifier::external_body]
pub struct ExValues(wjp::Values);

/// `wimcm::WIMCInput`, the typed request value the protocol crate defines.
#[verifier::external_type_specification]
#[verifier::external_body]
pub struct ExInput(wimcm::WIMCInput);

/// `wimcm::WIMCOutput`, the decoded outcome envelope: success with a
/// payload, or a server-reported failure.
#[verifier::external_type_specification]
#[verifier::external_body]
pub struct ExOutput(wimcm::WIMCOutput);

/// `wbdl::Date`, the opaque expiry timestamp a stored value may carry.
#[verifier::external_type_specification]
#[verifier::external_body]
pub struct ExDate(wbdl::Date);

// ---------------------------------------------------------------------
// Names for deterministic outside results.
// ---------------------------------------------------------------------

/// The store request built from a payload, a tag list and an optional expiry.
pub uninterp spec fn store_input(payload: wjp::Values, params: Seq<Seq<char>>, till: Option<wbdl::Date>) -> wimcm::WIMCInput;

/// The point-get request for one identifier.
pub uninterp spec fn get_input(id: u128) -> wimcm::WIMCInput;

/// The predicate-query request for a tag list.
pub uninterp spec fn query_input(params: Seq<Seq<char>>) -> wimcm::WIMCInput;

/// The remove request for one identifier.
pub uninterp spec fn remove_input(id: u128) -> wimcm::WIMCInput;

/// The echo request for a message.
pub uninterp spec fn echo_input(msg: Seq<char>) -> wimcm::WIMCInput;

/// The ping request, a constant of the protocol crate.
pub uninterp spec fn ping_input(u: ()) -> wimcm::WIMCInput;

/// The cleanup request, a constant of the protocol crate.
pub uninterp spec fn cleanup_input(u: ()) -> wimcm::WIMCInput;

/// What the reply text decodes to: `Some` envelope, or `None` where the
/// text is not a well-formed outcome.  Applied only to text whose string
/// literals are all closed (see [`parse_outcome`]); on other text the
/// parser's behaviour is not a function of the text at all.
pub uninterp spec fn parsed_outcome(text: Seq<char>) -> Option<wimcm::WIMCOutput>;

/// The success payload of an envelope: `Some` exactly where the envelope
/// carries success, `None` where the server reported failure.
pub uninterp spec fn payload_of(out: wimcm::WIMCOutput) -> Option<wjp::Values>;

/// What a payload converts to as an unsigned 128-bit identifier, where it
/// converts at all.
pub uninterp spec fn u128_of(v: wjp::Values) -> Option<u128>;

/// What a payload converts to as text, where it converts at all.
pub uninterp spec fn string_of(v: wjp::Values) -> Option<Seq<char>>;

/// What a payload converts to as an ordered list of payload values, where
/// it converts at all.
pub uninterp spec fn list_of(v: wjp::Values) -> Option<Seq<wjp::Values>>;

// ---------------------------------------------------------------------
// Wrapped calls.
// ---------------------------------------------------------------------

/// Relies on `wimcm::presets::store`: builds the store request; the result
/// depends on the payload, the tag list and the expiry alone.
#[verifier::external_body]
pub(crate) fn preset_store(payload: wjp::Values, params: Vec<String>, till: Option<wbdl::Date>) -> (r: wimcm::WIMCInput)
    ensures
        r == store_input(payload, params.deep_view(), till),
{
    wimcm::presets::store(payload, params, till)
}

/// Relies on `wimcm::presets::get`: builds the point-get request for the
/// given identifier.
#[verifier::external_body]
pub(crate) fn preset_get(id: u128) -> (r: wimcm::WIMCInput)
    ensures
        r == get_input(id),
{
    wimcm::presets::get(id)
}

/// Relies on `wimcm::presets::query`: builds the predicate-query request
/// for the given tag list.
#[verifier::external_body]
pub(crate) fn preset_query(params: Vec<String>) -> (r: wimcm::WIMCInput)
    ensures
        r == query_input(params.deep_view()),
{
    wimcm::presets::query(params)
}

/// Relies on `wimcm::presets::remove`: builds the remove request for the
/// given identifier.
#[verifier::external_body]
pub(crate) fn preset_remove(id: u128) -> (r: wimcm::WIMCInput)
    ensures
        r == remove_input(id),
{
    wimcm::presets::remove(id)
}

/// Relies on `wimcm::presets::echo`: builds the echo request; the result
/// depends on the message alone.
#[verifier::external_body]
pub(crate) fn preset_echo(msg: &str) -> (r: wimcm::WIMCInput)
    ensures
        r == echo_input(msg@),
{
    wimcm::presets::echo(msg)
}

/// Relies on `wimcm::presets::ping`: builds the ping request, a constant
/// of the protocol crate.
#[verifier::external_body]
pub(crate) fn preset_ping() -> (r: wimcm::WIMCInput)
    ensures
        r == ping_input(()),
{
    wimcm::presets::ping()
}

/// Relies on `wimcm::presets::cleanup`: builds the cleanup request, a
/// constant of the protocol crate.
#[verifier::external_body]
pub(crate) fn preset_cleanup() -> (r: wimcm::WIMCInput)
    ensures
        r == cleanup_input(()),
{
    wimcm::presets::cleanup()
}

/// Relies on `wjp::Serialize::json` for `WIMCInput`: every request
/// serializes as one JSON object, so the text starts with `{` and ends
/// with `}`.  The keys inside come out in hash-map walk order, which may
/// differ between two encodings of one request, so nothing more is stated.
#[verifier::external_body]
pub(crate) fn encode_input(req: &wimcm::WIMCInput) -> (r: String)
    ensures
        r@.len() >= 2,
        r@.first() == '{',
        r@.last() == '}',
{
    req.json()
}

/// Relies on `wimcm::WIMCOutput::deserialize_str` (wjp's parser under
/// it): for text whose string literals are all closed, decoding is a
/// function of the text alone, and `None` stands for text that does not
/// decode to an outcome envelope.  The parser's string scanner runs to
/// each literal's closing quote without testing for end of input, so text
/// that ends inside a literal must be kept away from this call: callers
/// test [`crate::scan::check_literals_closed`] first.
#[verifier::external_body]
pub(crate) fn parse_outcome(text: &str) -> (r: Option<wimcm::WIMCOutput>)
    requires
        literals_closed(text@),
    ensures
        r == parsed_outcome(text@),
{
    match wimcm::WIMCOutput::deserialize_str(text) {
        Ok(out) => Some(out),
        Err(_) => None,
    }
}

/// Relies on `wimcm::WIMCOutput::ok`: hands out the success payload, and
/// `None` exactly where the envelope is a server-reported failure.
#[verifier::external_body]
pub(crate) fn outcome_payload(out: wimcm::WIMCOutput) -> (r: Option<wjp::Values>)
    ensures
        r == payload_of(out),
{
    out.ok()
}

/// Relies on wjp's `TryFrom<Values> for u128`: the conversion is a function
/// of the value alone; `None` stands for a payload that is no identifier.
#[verifier::external_body]
pub(crate) fn to_u128(v: &wjp::Values) -> (r: Option<u128>)
    ensures
        r == u128_of(*v),
{
    u128::try_from(v.clone()).ok()
}

/// Relies on wjp's `TryFrom<Values> for String`: the conversion is a
/// function of the value alone; `None` stands for a payload that is no
/// text.
#[verifier::external_body]
pub(crate) fn to_text(v: &wjp::Values) -> (r: Option<String>)
    ensures
        (r is Some) == (string_of(*v) is Some),
        r matches Some(s) ==> string_of(*v) == Some(s@),
{
    String::try_from(v.clone()).ok()
}

/// Relies on wjp's `TryFrom<Values> for Vec<Values>`: the conversion is a
/// function of the value alone; `None` stands for a payload that is no
/// list.
#[verifier::external_body]
pub(crate) fn to_list(v: &wjp::Values) -> (r: Option<Vec<wjp::Values>>)
    ensures
        (r is Some) == (list_of(*v) is Some),
        r matches Some(l) ==> list_of(*v) == Some(l@),
{
    Vec::<wjp::Values>::try_from(v.clone()).ok()
}

} // verus!
