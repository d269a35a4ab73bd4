//! Network endpoints written as `host:port`.

use crate::text::{all_digits, chars_of, decimal_value, parse_decimal};
use vstd::prelude::*;
use vstd::slice::slice_subrange;
use vstd::string::*;

verus! {

/// A host and a port, as plain values.
pub struct EndpointView {
    pub host: Seq<char>,
    pub port: u16,
}

/// Where a stream is sent to or served from.
#[derive(Debug)]
pub struct Endpoint {
    /// Host name or address; never empty in a parsed endpoint.
    pub host: String,
    /// Port number.
    pub port: u16,
}

impl View for Endpoint {
    type V = EndpointView;

    open spec fn view(&self) -> EndpointView {
        EndpointView { host: self.host@, port: self.port }
    }
}

/// The first `:` of `s` stands at index `at`.
pub open spec fn splits_at(s: Seq<char>, at: int) -> bool {
    &&& 0 <= at < s.len()
    &&& s[at] == ':'
    &&& forall|k: int| 0 <= k < at ==> s[k] != ':'
}

/// The digits of a port text: the text itself, without one leading `+` if
/// it has one.
pub open spec fn port_digits(text: Seq<char>) -> Seq<char> {
    if text.len() > 0 && text[0] == '+' {
        text.drop_first()
    } else {
        text
    }
}

/// The port that `text` writes: decimal digits, at least one, after an
/// optional `+`, with a value that fits sixteen bits.
pub open spec fn port_of(text: Seq<char>) -> Option<u16> {
    let digits = port_digits(text);
    if digits.len() > 0 && all_digits(digits) && decimal_value(digits) <= 65535 {
        Some(decimal_value(digits) as u16)
    } else {
        None
    }
}

/// The endpoint that `address` writes.
///
/// The host is everything before the first `:` and must not be empty; the
/// port is everything after it and must be a port text.
pub open spec fn endpoint_of(address: Seq<char>) -> Option<EndpointView> {
    if exists|at: int| splits_at(address, at) {
        let at = choose|at: int| splits_at(address, at);
        match port_of(address.skip(at + 1)) {
            Some(port) => if at > 0 {
                Some(EndpointView { host: address.take(at), port })
            } else {
                None
            },
            None => None,
        }
    } else {
        None
    }
}

/// Reads a port text.
pub fn parse_port(text: &[char]) -> (r: Option<u16>)
    ensures
        r == port_of(text@),
{
    let digits = if text.len() > 0 && text[0] == '+' {
        let d = slice_subrange(text, 1, text.len());
        assert(d@ =~= text@.drop_first());
        d
    } else {
        text
    };
    match parse_decimal(digits, 65535) {
        Some(value) => Some(value as u16),
        None => None,
    }
}

/// Reads an endpoint written as `host:port`.
///
/// Returns `None` exactly when the text has no `:`, the host before the
/// first `:` is empty, or what follows it is not a port.
pub fn parse_address(address: &str) -> (r: Option<Endpoint>)
    ensures
        r is Some <==> endpoint_of(address@) is Some,
        r matches Some(e) ==> Some(e@) == endpoint_of(address@),
{
    let chars = chars_of(address);
    let mut at: usize = 0;
    while at < chars.len() && chars[at] != ':'
        invariant
            at <= chars.len(),
            chars@ == address@,
            forall|k: int| 0 <= k < at ==> chars@[k] != ':',
        decreases chars.len() - at,
    {
        at += 1;
    }
    if at == chars.len() {
        assert(forall|i: int| !splits_at(address@, i));
        return None;
    }
    assert(splits_at(address@, at as int));
    proof {
        let chosen = choose|i: int| splits_at(address@, i);
        assert(chosen == at);
    }
    let tail = slice_subrange(chars.as_slice(), at + 1, chars.len());
    assert(tail@ =~= address@.skip(at + 1));
    match parse_port(tail) {
        Some(port) => {
            if at == 0 {
                None
            } else {
                let host = address.substring_char(0, at).to_owned();
                assert(host@ =~= address@.take(at as int));
                Some(Endpoint { host, port })
            }
        },
        None => None,
    }
}

/// A parsed endpoint has a host, and the address it came from splits at the
/// end of that host.
pub proof fn endpoint_host_not_empty(address: Seq<char>)
    requires
        endpoint_of(address) is Some,
    ensures
        endpoint_of(address)->0.host.len() > 0,
        splits_at(address, endpoint_of(address)->0.host.len() as int),
{
    let at = choose|at: int| splits_at(address, at);
    assert(address.take(at).len() == at);
}

} // verus!
