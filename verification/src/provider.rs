//! The client facade: one request builder and one reply interpreter per
//! operation.
//!
//! A caller (the unverified I/O shell) builds a request, encodes it, runs
//! the exchange, and hands the outcome back as an
//! [`Exchange`](crate::transport::Exchange); the interpreters here turn
//! that outcome into the operation's typed result, folding every failure
//! mode into the one [`WimcError`] kind.

use vstd::prelude::*;

use crate::scan::{check_literals_closed, literals_closed};
use crate::transport::Exchange;
use crate::wire::{
    cleanup_input, echo_input, encode_input, get_input, list_of, outcome_payload, parse_outcome,
    parsed_outcome, payload_of, ping_input, preset_cleanup, preset_echo, preset_get, preset_ping,
    preset_query, preset_remove, preset_store, query_input, remove_input, store_input, string_of,
    to_list, to_text, to_u128, u128_of,
};
use crate::WimcError;

verus! {

/// The payload of a successful exchange: the reply text was read, its
/// string literals are closed (text cut short inside a literal never
/// reaches the parser), it decodes to an outcome envelope, and the
/// envelope carries success.
pub open spec fn success_payload(ex: Exchange) -> Option<wjp::Values> {
    match ex.reply() {
        Some(text) => if literals_closed(text) {
            match parsed_outcome(text) {
                Some(out) => payload_of(out),
                None => None,
            }
        } else {
            None
        },
        None => None,
    }
}

/// The typed result of a store exchange: the server-assigned identifier,
/// or the one error kind on any failure.
pub open spec fn store_result(ex: Exchange) -> Result<u128, WimcError> {
    match success_payload(ex) {
        Some(v) => match u128_of(v) {
            Some(id) => Ok(id),
            None => Err(WimcError),
        },
        None => Err(WimcError),
    }
}

/// The typed result of an exchange whose payload is text (get and echo).
pub open spec fn text_result(ex: Exchange) -> Result<Seq<char>, WimcError> {
    match success_payload(ex) {
        Some(v) => match string_of(v) {
            Some(s) => Ok(s),
            None => Err(WimcError),
        },
        None => Err(WimcError),
    }
}

/// The typed result of a query exchange before element conversion: the
/// payload as an ordered list of opaque values.
pub open spec fn raw_result(ex: Exchange) -> Result<Seq<wjp::Values>, WimcError> {
    match success_payload(ex) {
        Some(v) => match list_of(v) {
            Some(l) => Ok(l),
            None => Err(WimcError),
        },
        None => Err(WimcError),
    }
}

/// The texts of the list elements that convert, in list order; an element
/// that does not convert is dropped and the rest kept.
pub open spec fn kept_texts(l: Seq<wjp::Values>) -> Seq<Seq<char>>
    decreases l.len(),
{
    if l.len() == 0 {
        Seq::empty()
    } else {
        match string_of(l.last()) {
            Some(s) => kept_texts(l.drop_last()).push(s),
            None => kept_texts(l.drop_last()),
        }
    }
}

/// The result of a fire-and-confirm exchange (remove and cleanup): success
/// exactly when the request was written; the reply, if any, is not read.
pub open spec fn confirm_result(ex: Exchange) -> Result<(), WimcError> {
    if ex.sent() {
        Ok(())
    } else {
        Err(WimcError)
    }
}

/// What ping reports of an exchange: the server answered and the answer is
/// a success envelope.
pub open spec fn ping_result(ex: Exchange) -> bool {
    success_payload(ex) is Some
}

/// The client facade.  Each operation is one request builder plus one
/// reply interpreter; the raw exchange between them runs outside the
/// library.
pub struct Provider;

/// Owned copies of the borrowed tag strings, character for character.
fn own_params(params: Vec<&str>) -> (r: Vec<String>)
    ensures
        r.deep_view() == params.deep_view(),
{
    let mut r: Vec<String> = Vec::new();
    let mut i: usize = 0;
    while i < params.len()
        invariant
            i <= params.len(),
            r@.len() == i,
            forall|j: int| 0 <= j < i ==> r@[j]@ == params@[j]@,
        decreases params.len() - i,
    {
        r.push(String::from_str(params[i]));
        i = i + 1;
    }
    proof {
        assert forall|j: int| 0 <= j < r@.len() implies r.deep_view()[j]
            == params.deep_view()[j] by {
            assert(r@[j]@ == params@[j]@);
        }
        assert(r.deep_view() =~= params.deep_view());
    }
    r
}

impl Provider {
    /// Build the store request from a payload, an optional expiry and the
    /// tag list.  Building never fails.
    pub fn store_request(ser: wjp::Values, till: Option<wbdl::Date>, params: Vec<&str>) -> (r: wimcm::WIMCInput)
        ensures
            r == store_input(ser, params.deep_view(), till),
    {
        preset_store(ser, own_params(params), till)
    }

    /// Build the point-get request for one identifier.
    pub fn get_request(id: u128) -> (r: wimcm::WIMCInput)
        ensures
            r == get_input(id),
    {
        preset_get(id)
    }

    /// Build the predicate-query request for a tag list.
    pub fn query_request(params: Vec<&str>) -> (r: wimcm::WIMCInput)
        ensures
            r == query_input(params.deep_view()),
    {
        preset_query(own_params(params))
    }

    /// Build the remove request for one identifier.
    pub fn remove_request(id: u128) -> (r: wimcm::WIMCInput)
        ensures
            r == remove_input(id),
    {
        preset_remove(id)
    }

    /// Build the echo request for a message.
    pub fn echo_request(msg: &str) -> (r: wimcm::WIMCInput)
        ensures
            r == echo_input(msg@),
    {
        preset_echo(msg)
    }

    /// Build the ping request, a constant of the protocol.
    pub fn ping_request() -> (r: wimcm::WIMCInput)
        ensures
            r == ping_input(()),
    {
        preset_ping()
    }

    /// Build the cleanup request, a constant of the protocol.
    pub fn cleanup_request() -> (r: wimcm::WIMCInput)
        ensures
            r == cleanup_input(()),
    {
        preset_cleanup()
    }

    /// Encode a request for the wire.  The text is one JSON object; its
    /// key order comes from a hash-map walk, so only the object shape is
    /// stated.
    pub fn encode_request(req: &wimcm::WIMCInput) -> (r: String)
        ensures
            r@.len() >= 2,
            r@.first() == '{',
            r@.last() == '}',
    {
        encode_input(req)
    }

    /// Extract the success payload of an exchange: `Ok` exactly when a
    /// reply was read, it decodes, and the envelope carries success.
    pub fn payload(ex: Exchange) -> (r: Result<wjp::Values, WimcError>)
        ensures
            (r is Ok) == (success_payload(ex) is Some),
            r matches Ok(v) ==> success_payload(ex) == Some(v),
            r matches Err(e) ==> e == WimcError,
    {
        match ex {
            Exchange::Reply(text) => {
                if !check_literals_closed(text.as_str()) {
                    return Err(WimcError);
                }
                match parse_outcome(text.as_str()) {
                    Some(out) => match outcome_payload(out) {
                        Some(v) => Ok(v),
                        None => Err(WimcError),
                    },
                    None => Err(WimcError),
                }
            },
            _ => Err(WimcError),
        }
    }

    /// Interpret a store reply: the server-assigned identifier, or the one
    /// error kind on any failure (no reply, malformed reply, failure
    /// envelope, or a payload that is no identifier).
    pub fn store(ex: Exchange) -> (r: Result<u128, WimcError>)
        ensures
            r == store_result(ex),
    {
        let v = Self::payload(ex)?;
        match to_u128(&v) {
            Some(id) => Ok(id),
            None => Err(WimcError),
        }
    }

    /// Interpret a get reply: the stored value as text, or the one error
    /// kind on any failure.
    pub fn get(ex: Exchange) -> (r: Result<String, WimcError>)
        ensures
            (r is Ok) == (text_result(ex) is Ok),
            r matches Ok(s) ==> text_result(ex) == Ok::<Seq<char>, WimcError>(s@),
            r matches Err(e) ==> e == WimcError,
    {
        let v = Self::payload(ex)?;
        match to_text(&v) {
            Some(s) => Ok(s),
            None => Err(WimcError),
        }
    }

    /// Interpret an echo reply: the echoed text, or the one error kind on
    /// any failure.
    pub fn echo(ex: Exchange) -> (r: Result<String, WimcError>)
        ensures
            (r is Ok) == (text_result(ex) is Ok),
            r matches Ok(s) ==> text_result(ex) == Ok::<Seq<char>, WimcError>(s@),
            r matches Err(e) ==> e == WimcError,
    {
        let v = Self::payload(ex)?;
        match to_text(&v) {
            Some(s) => Ok(s),
            None => Err(WimcError),
        }
    }

    /// Interpret a query reply without converting its elements: the
    /// payload as an ordered list of opaque values.
    pub fn query_raw(ex: Exchange) -> (r: Result<Vec<wjp::Values>, WimcError>)
        ensures
            (r is Ok) == (raw_result(ex) is Ok),
            r matches Ok(l) ==> raw_result(ex) == Ok::<Seq<wjp::Values>, WimcError>(l@),
            r matches Err(e) ==> e == WimcError,
    {
        let v = Self::payload(ex)?;
        match to_list(&v) {
            Some(l) => Ok(l),
            None => Err(WimcError),
        }
    }

    /// Interpret a query reply as texts: every element that converts is
    /// kept, in order, and an element that does not convert is dropped
    /// without failing the call.
    pub fn query(ex: Exchange) -> (r: Result<Vec<String>, WimcError>)
        ensures
            (r is Ok) == (raw_result(ex) is Ok),
            r matches Ok(l) ==> raw_result(ex) matches Ok(raw) && l.deep_view() == kept_texts(raw),
            r matches Err(e) ==> e == WimcError,
    {
        let raw = Self::query_raw(ex)?;
        let ghost full: Seq<wjp::Values> = raw@;
        let mut out: Vec<String> = Vec::new();
        let mut i: usize = 0;
        while i < raw.len()
            invariant
                i <= raw.len(),
                raw@ == full,
                out.deep_view() == kept_texts(full.take(i as int)),
            decreases raw.len() - i,
        {
            proof {
                assert(full.take(i + 1 as int).drop_last() == full.take(i as int));
                assert(full.take(i + 1 as int).last() == full[i as int]);
            }
            match to_text(&raw[i]) {
                Some(s) => out.push(s),
                None => (),
            }
            i = i + 1;
        }
        proof {
            assert(full.take(raw@.len() as int) == full);
        }
        Ok(out)
    }

    /// Interpret a ping exchange.  Ping never raises an error: it is true
    /// exactly when the server answered with a success envelope, and false
    /// for every failure mode.
    pub fn ping(ex: Exchange) -> (r: bool)
        ensures
            r == ping_result(ex),
    {
        match Self::internal_ping(ex) {
            Ok(b) => b,
            Err(_) => false,
        }
    }

    /// Ping, with transport failures kept apart: `Err` where the request
    /// never reached the wire, `Ok(b)` otherwise, with `b` true exactly on
    /// a success envelope.
    fn internal_ping(ex: Exchange) -> (r: Result<bool, WimcError>)
        ensures
            (r is Ok) == ex.sent(),
            r matches Ok(b) ==> b == ping_result(ex),
            r matches Err(e) ==> e == WimcError,
    {
        match ex {
            Exchange::Reply(text) => {
                if !check_literals_closed(text.as_str()) {
                    return Ok(false);
                }
                match parse_outcome(text.as_str()) {
                    Some(out) => match outcome_payload(out) {
                        Some(_) => Ok(true),
                        None => Ok(false),
                    },
                    None => Ok(false),
                }
            },
            Exchange::NoReply => Ok(false),
            _ => Err(WimcError),
        }
    }

    /// Interpret a remove exchange.  Remove is fire-and-confirm: success
    /// means the request was written, not that removal was confirmed, so
    /// only the send half of the exchange decides.
    pub fn remove(ex: Exchange) -> (r: Result<(), WimcError>)
        ensures
            r == confirm_result(ex),
    {
        match ex {
            Exchange::NoConnection => Err(WimcError),
            Exchange::SendFailed => Err(WimcError),
            _ => Ok(()),
        }
    }

    /// Interpret a cleanup exchange, fire-and-confirm like remove.
    pub fn cleanup(ex: Exchange) -> (r: Result<(), WimcError>)
        ensures
            r == confirm_result(ex),
    {
        match ex {
            Exchange::NoConnection => Err(WimcError),
            Exchange::SendFailed => Err(WimcError),
            _ => Ok(()),
        }
    }
}

} // verus!
