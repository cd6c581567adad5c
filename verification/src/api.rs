//! The decisions the HTTP handlers make before and between their queries:
//! which signed-in user a request acts for, and which error reply a request
//! gets when that user cannot be established.

use vstd::prelude::*;
use crate::decimal::{
    decimal_value, i32_parse_error_text, is_i32_text, is_i64_text, parse_i32, parse_i64,
};

verus! {

/// An error reply: its HTTP status and its body text.
#[derive(Clone, Debug)]
pub enum Rejection {
    /// 404 Not Found.
    NotFound(String),
    /// 500 Internal Server Error.
    InternalServerError(String),
}

/// Body of the reply to a request without a signed-in user.
pub open spec fn no_user_text() -> Seq<char> {
    "User id not found."@
}

/// Body of the reply to a request whose user id is not a number.
pub open spec fn not_a_number_text() -> Seq<char> {
    "User id is not a number."@
}

/// `r` is a 404 whose body is `text`.
pub open spec fn is_not_found(r: Rejection, text: Seq<char>) -> bool {
    r matches Rejection::NotFound(m) && m@ == text
}

fn no_user() -> (r: Rejection)
    ensures
        is_not_found(r, no_user_text()),
{
    Rejection::NotFound(String::from_str("User id not found."))
}

/// The user that a challenge request acts for, as a 32-bit id. A request
/// without a signed-in user gets a 404; the stored id of a signed-in user
/// must be the decimal text of an `i32`.
pub fn challenge_user_id(identity: Option<&str>) -> (r: Result<i32, Rejection>)
    requires
        identity matches Some(s) ==> is_i32_text(s@),
    ensures
        identity is None ==> (r matches Err(e) && is_not_found(e, no_user_text())),
        identity matches Some(s) ==> (r matches Ok(id) && decimal_value(s@) == Some(id as int)),
{
    match identity {
        None => Err(no_user()),
        Some(s) => match parse_i32(s) {
            Ok(id) => Ok(id),
            Err(_) => Err(no_user()),
        },
    }
}

/// The user that a commit submission acts for, as a 64-bit id. A request
/// without a signed-in user gets a 404; the stored id of a signed-in user
/// must be the decimal text of an `i64`.
pub fn submitter_user_id(identity: Option<&str>) -> (r: Result<i64, Rejection>)
    requires
        identity matches Some(s) ==> is_i64_text(s@),
    ensures
        identity is None ==> (r matches Err(e) && is_not_found(e, no_user_text())),
        identity matches Some(s) ==> (r matches Ok(id) && decimal_value(s@) == Some(id as int)),
{
    match identity {
        None => Err(no_user()),
        Some(s) => match parse_i64(s) {
            Some(id) => Ok(id),
            None => Err(no_user()),
        },
    }
}

/// The user whose own profile is asked for. A request without a signed-in
/// user, or whose user id is not the decimal text of an `i64`, gets a 404.
pub fn me_user_id(identity: Option<&str>) -> (r: Result<i64, Rejection>)
    ensures
        match identity {
            None => r matches Err(e) && is_not_found(e, no_user_text()),
            Some(s) => if is_i64_text(s@) {
                r matches Ok(id) && decimal_value(s@) == Some(id as int)
            } else {
                r matches Err(e) && is_not_found(e, not_a_number_text())
            },
        },
{
    match identity {
        None => Err(no_user()),
        Some(s) => match parse_i64(s) {
            Some(id) => Ok(id),
            None => Err(Rejection::NotFound(String::from_str("User id is not a number."))),
        },
    }
}

/// The reply to the parse of a reacting user's id: the id when it parsed,
/// else a 500 that carries the parse error's text.
pub fn user_id_or_server_error(parsed: Result<i32, String>) -> (r: Result<i32, Rejection>)
    ensures
        match parsed {
            Ok(id) => r == Ok::<i32, Rejection>(id),
            Err(m) => r matches Err(e) && (e matches Rejection::InternalServerError(b) && b@
                == m@),
        },
{
    match parsed {
        Ok(id) => Ok(id),
        Err(m) => Err(Rejection::InternalServerError(m)),
    }
}

/// The user that a reaction request acts for (the one reacting), as a
/// 32-bit id. `identity` is the signed-in user's id, or the text of the
/// error met while looking it up. That error is answered with a 404 that
/// carries its text; an id that is not the decimal text of an `i32` is
/// answered with a 500 that carries the text of std's parse error.
pub fn reacting_user_id(identity: Result<&str, String>) -> (r: Result<i32, Rejection>)
    ensures
        match identity {
            Err(m) => r matches Err(e) && is_not_found(e, m@),
            Ok(s) => if is_i32_text(s@) {
                r matches Ok(id) && decimal_value(s@) == Some(id as int)
            } else {
                r matches Err(e) && (e matches Rejection::InternalServerError(b) && b@
                    == i32_parse_error_text(s@))
            },
        },
{
    match identity {
        Err(m) => Err(Rejection::NotFound(m)),
        Ok(s) => user_id_or_server_error(parse_i32(s)),
    }
}

/// Whether a request for the commit list may go on: it needs a signed-in
/// user, and without one it gets a 404.
pub fn require_signed_in(signed_in: bool) -> (r: Result<(), Rejection>)
    ensures
        signed_in ==> r is Ok,
        !signed_in ==> (r matches Err(e) && is_not_found(e, no_user_text())),
{
    if signed_in {
        Ok(())
    } else {
        Err(no_user())
    }
}

} // verus!
