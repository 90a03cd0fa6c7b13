//! The per-connection exchange: decode one line, run the matching store
//! operation, and say which bytes, if any, go back to the client.
//!
//! The surrounding program reads the line from the connection and writes the
//! reply; everything between those two I/O steps happens here. A connection
//! whose line never arrives (the peer closed mid-read) never reaches this
//! module, so it leaves the store untouched.

use vstd::prelude::*;
use crate::request::{Request, parse_request, trim_line};
use crate::store::{
    MessageStore, queue_after_publish, queue_after_retrieve, retrieve_result,
};

verus! {

/// The reply for a retrieve that finds the queue empty.
pub open spec fn no_message_text() -> Seq<char> {
    "no message available"@
}

/// The store after one line is handled: a publish line appends its trimmed
/// text; a retrieve line removes the head, if any.
pub open spec fn queue_after_line(q: Seq<Seq<char>>, line: Seq<char>) -> Seq<Seq<char>> {
    if trim_line(line).len() > 0 {
        queue_after_publish(q, trim_line(line))
    } else {
        queue_after_retrieve(q)
    }
}

/// The reply for one line against queue `q`: a publish is acknowledged by
/// closing the connection with no payload (`None`); a retrieve answers with
/// the head message, or with the empty-queue signal text.
pub open spec fn response_for_line(q: Seq<Seq<char>>, line: Seq<char>) -> Option<Seq<char>> {
    if trim_line(line).len() > 0 {
        None
    } else if q.len() > 0 {
        Some(q[0])
    } else {
        Some(no_message_text())
    }
}

/// The empty-queue reply as a value the caller can send.
fn no_message_reply() -> (s: String)
    ensures
        s@ == no_message_text(),
{
    let s: &str = "no message available";
    s.to_owned()
}

/// Run one request against the store and return the reply payload, if any.
pub fn execute_request(store: &mut MessageStore, request: Request) -> (reply: Option<String>)
    ensures
        request matches Request::Publish(text) ==> {
            &&& final(store)@ == queue_after_publish(old(store)@, text@)
            &&& reply is None
        },
        request is Retrieve ==> {
            &&& final(store)@ == queue_after_retrieve(old(store)@)
            &&& reply matches Some(r) && Some(r@) == (match retrieve_result(old(store)@) {
                Some(text) => Some(text),
                None => Some(no_message_text()),
            })
        },
{
    match request {
        Request::Publish(text) => {
            store.publish(text);
            None
        },
        Request::Retrieve => {
            match store.retrieve() {
                Some(text) => Some(text),
                None => Some(no_message_reply()),
            }
        },
    }
}

/// Handle one connection's line end to end: decode it, run the store
/// operation, and return the reply payload, if any, to write back before
/// the connection closes.
pub fn handle_line(store: &mut MessageStore, line: String) -> (reply: Option<String>)
    ensures
        final(store)@ == queue_after_line(old(store)@, line@),
        reply.deep_view() == response_for_line(old(store)@, line@),
{
    let request = parse_request(line);
    execute_request(store, request)
}

} // verus!
