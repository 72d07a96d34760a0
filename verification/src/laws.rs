//! Laws of the client that hold over the contracts in
//! [`provider`](crate::provider).
//!
//! What the server does with a request — which values a query matches,
//! whether a removed identifier stays gone — lives on the other side of
//! the wire and cannot be stated here.  What can be stated is how the
//! client treats every possible reply, and these proofs pin the two rules
//! a caller leans on: query conversion drops exactly the non-convertible
//! elements, and a failed exchange is reported the same way by every
//! operation.

use vstd::prelude::*;

use crate::provider::{kept_texts, ping_result, raw_result, store_result, text_result};
use crate::scan::literals_closed;
use crate::transport::Exchange;
use crate::wire::string_of;

verus! {

/// Where every element of a query payload converts to text, none is
/// dropped: the result has one text per element, in order, and each is the
/// conversion of the element at its position.
pub proof fn lemma_query_keeps_convertible(l: Seq<wjp::Values>)
    requires
        forall|i: int| 0 <= i < l.len() ==> string_of(l[i]) is Some,
    ensures
        kept_texts(l).len() == l.len(),
        forall|i: int| 0 <= i < l.len() ==> string_of(l[i]) == Some(kept_texts(l)[i]),
    decreases l.len(),
{
    if l.len() > 0 {
        assert forall|i: int| 0 <= i < l.drop_last().len() implies string_of(l.drop_last()[i]) is Some by {
            assert(l.drop_last()[i] == l[i]);
        }
        lemma_query_keeps_convertible(l.drop_last());
        assert(string_of(l.last()) is Some);
        assert forall|i: int| 0 <= i < l.len() implies string_of(l[i]) == Some(kept_texts(l)[i]) by {
            if i < l.len() - 1 {
                assert(l.drop_last()[i] == l[i]);
                assert(kept_texts(l)[i] == kept_texts(l.drop_last())[i]);
            } else {
                assert(l[i] == l.last());
            }
        }
    }
}

/// Query conversion invents nothing: the result never grows past the
/// payload, and every text in it is the conversion of some payload
/// element.
pub proof fn lemma_query_invents_nothing(l: Seq<wjp::Values>)
    ensures
        kept_texts(l).len() <= l.len(),
        forall|j: int| 0 <= j < kept_texts(l).len()
            ==> exists|i: int| 0 <= i < l.len() && string_of(l[i]) == Some(#[trigger] kept_texts(l)[j]),
    decreases l.len(),
{
    if l.len() > 0 {
        lemma_query_invents_nothing(l.drop_last());
        let prior = kept_texts(l.drop_last());
        assert forall|j: int| 0 <= j < kept_texts(l).len() implies exists|i: int|
            0 <= i < l.len() && string_of(l[i]) == Some(#[trigger] kept_texts(l)[j]) by {
            if j < prior.len() {
                assert(kept_texts(l)[j] == prior[j]);
                let i0 = choose|i: int| 0 <= i < l.drop_last().len()
                    && string_of(l.drop_last()[i]) == Some(prior[j]);
                assert(l.drop_last()[i0] == l[i0]);
                assert(0 <= i0 < l.len() && string_of(l[i0]) == Some(kept_texts(l)[j]));
            } else {
                let iw = l.len() - 1;
                assert(l[iw] == l.last());
                assert(string_of(l.last()) matches Some(s) && kept_texts(l)[j] == s);
                assert(0 <= iw < l.len() && string_of(l[iw]) == Some(kept_texts(l)[j]));
            }
        }
    }
}

/// With the server unreachable, every operation whose result carries a
/// payload reports the one error kind, the fire-and-confirm operations
/// (which succeed exactly when the request was sent) fail too, and ping
/// alone reports plain `false` instead of an error.
pub proof fn lemma_server_down()
    ensures
        store_result(Exchange::NoConnection) is Err,
        text_result(Exchange::NoConnection) is Err,
        raw_result(Exchange::NoConnection) is Err,
        !Exchange::NoConnection.sent(),
        !ping_result(Exchange::NoConnection),
{
}

/// A reply cut short inside a string literal never reaches the wire
/// codec's parser: it reads as the one error kind from every operation
/// that consults the reply, and as plain `false` from ping.
pub proof fn lemma_unclosed_literal_rejected(text: String)
    requires
        !literals_closed(text@),
    ensures
        store_result(Exchange::Reply(text)) is Err,
        text_result(Exchange::Reply(text)) is Err,
        raw_result(Exchange::Reply(text)) is Err,
        !ping_result(Exchange::Reply(text)),
{
}

/// Ping reports success only for an exchange that carried a reply back:
/// every transport failure, of whatever kind, reads as `false`.
pub proof fn lemma_ping_needs_reply(ex: Exchange)
    ensures
        ping_result(ex) ==> ex matches Exchange::Reply(_),
{
}

} // verus!
