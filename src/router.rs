//! Topic helpers for routing messages by path patterns.
use vstd::prelude::*;

verus! {

/// Whether, after reading `s`, the conversion is inside a `:name` parameter:
/// the last `:` or `/` of `s` is a `:`.
pub open spec fn param_open(s: Seq<char>) -> bool
    decreases s.len(),
{
    if s.len() == 0 {
        false
    } else if s.last() == ':' {
        true
    } else if s.last() == '/' {
        false
    } else {
        param_open(s.drop_last())
    }
}

/// The MQTT topic filter for a route: each `:name` parameter becomes `+`,
/// where the parameter runs from the `:` up to the next `/`.
pub open spec fn route_topic(s: Seq<char>) -> Seq<char>
    decreases s.len(),
{
    if s.len() == 0 {
        Seq::empty()
    } else {
        let prev = route_topic(s.drop_last());
        let c = s.last();
        if c == ':' {
            prev.push('+')
        } else if c == '/' {
            prev.push('/')
        } else if param_open(s.drop_last()) {
            prev
        } else {
            prev.push(c)
        }
    }
}

/// Relies on `String::push`: appends one character.
#[verifier::external_body]
fn push_char(s: &mut String, c: char)
    ensures
        final(s)@ == old(s)@.push(c),
{
    s.push(c)
}

/// Convert a router path into the corresponding MQTT topic filter:
/// `:foo` is replaced by `+`.
pub fn route_to_topic(route: &str) -> (r: String)
    ensures
        r@ == route_topic(route@),
{
    let mut result = String::new();
    let mut in_param = false;
    for c in it: route.chars()
        invariant
            it.seq() == route@,
            result@ == route_topic(route@.take(it.index())),
            in_param == param_open(route@.take(it.index())),
    {
        proof {
            let s = route@.take(it.index() + 1);
            assert(s.drop_last() =~= route@.take(it.index()));
            assert(s.last() == c);
        }
        if c == ':' {
            in_param = true;
            push_char(&mut result, '+');
        } else {
            if c == '/' {
                in_param = false;
            }
            if !in_param {
                push_char(&mut result, c);
            }
        }
    }
    proof {
        assert(route@.take(route@.len() as int) =~= route@);
    }
    result
}

/// An extractor for the topic portion of a message.
pub struct Topic(pub String);

/// An extractor for the payload portion of a message, parsed into `T`.
pub struct Payload<T>(pub T);

/// An extractor for the parameters that a route captured from the topic.
pub struct Params<T>(pub T);

/// An extractor for the state shared among handlers.
pub struct State<S>(pub S);

} // verus!
