//! Checks that commands pass before they are handed to the engine, and the
//! conversions of their arguments into the engine's integer types.
use vstd::prelude::*;
use crate::error::{Error, MosqErr};

verus! {

/// The largest payload that an MQTT packet can carry.
pub const MQTT_MAX_PAYLOAD: usize = 268435455;

/// The shortest keepalive interval, in seconds, that the engine accepts.
pub const MIN_KEEPALIVE_SECS: u64 = 5;

/// Whether `s` can be handed to the engine as a C string: it holds no NUL.
pub open spec fn is_c_text(s: Seq<char>) -> bool {
    !s.contains('\0')
}

/// What the text check gives for `s`.
pub open spec fn text_check(s: Seq<char>) -> Result<(), Error> {
    if is_c_text(s) {
        Ok(())
    } else {
        Err(Error::CString)
    }
}

/// What the text check gives for an optional text.
pub open spec fn optional_text_check(s: Option<Seq<char>>) -> Result<(), Error> {
    match s {
        Some(t) => text_check(t),
        None => Ok(()),
    }
}

/// What the checks of a publish (or of a last will) give: the payload
/// length as the engine's integer, or the first failing check.
pub open spec fn publish_check(topic: Seq<char>, payload_len: nat) -> Result<i32, Error> {
    if !is_c_text(topic) {
        Err(Error::CString)
    } else if payload_len > MQTT_MAX_PAYLOAD {
        Err(Error::Mosq(MosqErr::PayloadSize))
    } else if topic.len() == 0 {
        Err(Error::Mosq(MosqErr::Inval))
    } else {
        Ok(payload_len as i32)
    }
}

/// What the checks of a subscription pattern give.
pub open spec fn pattern_check(pattern: Seq<char>) -> Result<(), Error> {
    if !is_c_text(pattern) {
        Err(Error::CString)
    } else if pattern.len() == 0 {
        Err(Error::Mosq(MosqErr::Inval))
    } else {
        Ok(())
    }
}

/// What the checks of a connect give: the keepalive interval in seconds
/// as the engine's integer, or the first failing check.
pub open spec fn connect_check(
    host: Seq<char>,
    keepalive_secs: u64,
    bind_address: Option<Seq<char>>,
) -> Result<i32, Error> {
    if !is_c_text(host) {
        Err(Error::CString)
    } else if optional_text_check(bind_address) is Err {
        Err(Error::CString)
    } else if keepalive_secs > i32::MAX || keepalive_secs < MIN_KEEPALIVE_SECS {
        Err(Error::Mosq(MosqErr::Inval))
    } else {
        Ok(keepalive_secs as i32)
    }
}

/// The view of an optional text.
pub open spec fn opt_view(s: Option<&str>) -> Option<Seq<char>> {
    match s {
        Some(t) => Some(t@),
        None => None,
    }
}

/// Check that `s` can be handed to the engine as a C string.
pub fn check_text(s: &str) -> (r: Result<(), Error>)
    ensures
        r == text_check(s@),
{
    for c in it: s.chars()
        invariant
            it.seq() == s@,
            forall|j: int| 0 <= j < it.index() ==> s@[j] != '\0',
    {
        if c == '\0' {
            assert(s@[it.index()] == '\0');
            return Err(Error::CString);
        }
    }
    assert(!s@.contains('\0'));
    Ok(())
}

/// Check an optional text, such as a user name or a bind address.
pub fn check_optional_text(s: Option<&str>) -> (r: Result<(), Error>)
    ensures
        r == optional_text_check(opt_view(s)),
{
    match s {
        Some(t) => check_text(t),
        None => Ok(()),
    }
}

/// Check the arguments of a publish or of a last will, and convert the
/// payload length into the engine's integer.
pub fn check_publish(topic: &str, payload_len: usize) -> (r: Result<i32, Error>)
    ensures
        r == publish_check(topic@, payload_len as nat),
{
    check_text(topic)?;
    if payload_len > MQTT_MAX_PAYLOAD {
        return Err(Error::Mosq(MosqErr::PayloadSize));
    }
    if topic.is_empty() {
        return Err(Error::Mosq(MosqErr::Inval));
    }
    Ok(payload_len as i32)
}

/// Check a subscription pattern, for a subscribe or an unsubscribe.
pub fn check_pattern(pattern: &str) -> (r: Result<(), Error>)
    ensures
        r == pattern_check(pattern@),
{
    check_text(pattern)?;
    if pattern.is_empty() {
        return Err(Error::Mosq(MosqErr::Inval));
    }
    Ok(())
}

/// Check the arguments of a connect, and convert the keepalive interval
/// into the engine's integer.
pub fn check_connect(host: &str, keepalive_secs: u64, bind_address: Option<&str>) -> (r: Result<
    i32,
    Error,
>)
    ensures
        r == connect_check(host@, keepalive_secs, opt_view(bind_address)),
{
    check_text(host)?;
    check_optional_text(bind_address)?;
    if keepalive_secs > i32::MAX as u64 || keepalive_secs < MIN_KEEPALIVE_SECS {
        return Err(Error::Mosq(MosqErr::Inval));
    }
    Ok(keepalive_secs as i32)
}

/// Convert the reconnect delays, in seconds, into the engine's integers.
pub fn check_reconnect_delay(delay_secs: u64, max_delay_secs: u64) -> (r: Result<(u32, u32), Error>)
    ensures
        delay_secs <= u32::MAX && max_delay_secs <= u32::MAX ==> r == Ok::<(u32, u32), Error>(
            (delay_secs as u32, max_delay_secs as u32),
        ),
        !(delay_secs <= u32::MAX && max_delay_secs <= u32::MAX) ==> r == Err::<(u32, u32), Error>(
            Error::Mosq(MosqErr::Inval),
        ),
{
    if delay_secs > u32::MAX as u64 || max_delay_secs > u32::MAX as u64 {
        return Err(Error::Mosq(MosqErr::Inval));
    }
    Ok((delay_secs as u32, max_delay_secs as u32))
}

/// Convert the message loop's sleep, in milliseconds, into the engine's integer.
pub fn check_loop_timeout(timeout_ms: u128) -> (r: Result<i32, Error>)
    ensures
        timeout_ms <= i32::MAX ==> r == Ok::<i32, Error>(timeout_ms as i32),
        timeout_ms > i32::MAX ==> r == Err::<i32, Error>(Error::Mosq(MosqErr::Inval)),
{
    if timeout_ms > i32::MAX as u128 {
        return Err(Error::Mosq(MosqErr::Inval));
    }
    Ok(timeout_ms as i32)
}

} // verus!
