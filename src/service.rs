//! What the two routes answer: the welcome text for a new counter, and the
//! badge, or a failure, for an increment.
use vstd::prelude::*;
use vstd::string::*;
use crate::badge::{
    badge_svg, lemma_color_overrides_alias, lemma_message_color_alias, lemma_unknown_style_is_flat,
    query_label, query_value, render, resolve, same_values_except, style_of_name, MAX_TEXT_LEN,
};
use crate::ids::{hyphenated, id_text};
use crate::store::{increment_result, increment_state, storage_error_text, StorageError};
use crate::text::{decimal, lemma_u64_decimal_len, push_decimal};

verus! {

/// How the body of a reply is to be read.
#[derive(Clone, Copy, Debug, PartialEq, Eq, Structural)]
pub enum ContentType {
    PlainText,
    Svg,
}

impl ContentType {
    /// The media type sent in the `Content-Type` header.
    pub fn mime(&self) -> (r: &'static str)
        ensures
            r@ == mime_text(*self),
    {
        match self {
            ContentType::PlainText => "text/plain; charset=utf-8",
            ContentType::Svg => "image/svg+xml",
        }
    }
}

/// The media type of a content type.
pub open spec fn mime_text(c: ContentType) -> Seq<char> {
    match c {
        ContentType::PlainText => "text/plain; charset=utf-8"@,
        ContentType::Svg => "image/svg+xml"@,
    }
}

/// A reply: an HTTP status code, how to read the body, and the body.
pub struct Reply {
    pub status: u16,
    pub content_type: ContentType,
    pub body: String,
}

/// The text of an integer as `to_string` writes it: a minus sign for a
/// negative value, then its decimal digits.
pub open spec fn int_text(n: int) -> Seq<char> {
    if n < 0 { seq!['-'] + decimal((-n) as nat) } else { decimal(n as nat) }
}

/// The text of a count.
pub fn count_text(n: i64) -> (r: String)
    ensures
        r@ == int_text(n as int),
        r@.len() <= 21,
{
    let mut r = String::new();
    if n < 0 {
        r.append("-");
        let m: u64 = ((-(n + 1)) as u64) + 1;
        push_decimal(&mut r, m);
        proof {
            reveal_strlit("-");
            lemma_u64_decimal_len(m);
        }
        assert(r@ =~= int_text(n as int));
    } else {
        push_decimal(&mut r, n as u64);
        proof { lemma_u64_decimal_len(n as u64); }
        assert(r@ =~= int_text(n as int));
    }
    r
}

/// The welcome text that hands out identifier `id`.
pub open spec fn welcome_text(id: Seq<char>) -> Seq<char> {
    WELCOME_HEAD@ + id + WELCOME_VISIT@ + id + WELCOME_TAIL@
}

pub const WELCOME_HEAD: &'static str = "Welcome! This is a simple API for generating visitor count badges using shields.io.\n\nYour new unique ID is: ";

pub const WELCOME_VISIT: &'static str = "\nTo begin tracking, visit: /";

pub const WELCOME_TAIL: &'static str = "\n\nYou can customize the badge appearance using any of the query parameters supported by shields.io static badges:\nhttps://shields.io/badges/static-badge\n\nNote: Only query parameters are supported.\n      `logoSize`, `cacheSeconds`, and `link` are not supported.\n      The default value for label is \"visitors\"";

/// The welcome text for a new counter: its identifier and how to use it.
pub fn welcome_message(id: u128) -> (r: String)
    ensures
        r@ == welcome_text(hyphenated(id)),
{
    let t = id_text(id);
    let mut r = String::from_str(WELCOME_HEAD);
    r.append(t.as_str());
    r.append(WELCOME_VISIT);
    r.append(t.as_str());
    r.append(WELCOME_TAIL);
    assert(r@ =~= welcome_text(hyphenated(id)));
    r
}

/// The body of the reply to an unknown identifier.
pub const NOT_FOUND_BODY: &'static str = "UUID not found";

/// The reply to a storage failure: status 500 with the failure's text.
pub fn storage_failure_reply(e: &StorageError) -> (r: Reply)
    ensures
        r.status == 500,
        r.content_type == ContentType::PlainText,
        r.body@ == storage_error_text(*e),
{
    Reply { status: 500, content_type: ContentType::PlainText, body: e.message() }
}

/// The reply to a request for a new counter, given what creating it gave:
/// 200 with the welcome text, or 500 with the failure's text.
pub fn new_counter_reply(created: &Result<u128, StorageError>) -> (r: Reply)
    ensures
        r.content_type == ContentType::PlainText,
        match *created {
            Ok(id) => r.status == 200 && r.body@ == welcome_text(hyphenated(id)),
            Err(e) => r.status == 500 && r.body@ == storage_error_text(e),
        },
{
    match created {
        Ok(id) => Reply { status: 200, content_type: ContentType::PlainText, body: welcome_message(*id) },
        Err(e) => storage_failure_reply(e),
    }
}

/// Status, content type and body of the reply to a badge request with query
/// pairs `q`, given what the increment gave.
pub open spec fn badge_reply_spec(
    incremented: Result<Option<i64>, StorageError>,
    q: Seq<(String, String)>,
) -> (u16, ContentType, Seq<char>) {
    match incremented {
        Ok(Some(n)) => (200, ContentType::Svg, badge_svg(resolve(q, int_text(n as int)))),
        Ok(None) => (404, ContentType::PlainText, NOT_FOUND_BODY@),
        Err(e) => (500, ContentType::PlainText, storage_error_text(e)),
    }
}

/// The reply to a badge request with query pairs `q`, given what the
/// increment gave: 200 with the badge showing the new count, 404 for an
/// unknown identifier, or 500 with the failure's text.
pub fn badge_reply(incremented: &Result<Option<i64>, StorageError>, q: &Vec<(String, String)>) -> (r: Reply)
    requires
        query_label(q@).len() <= MAX_TEXT_LEN,
    ensures
        match *incremented {
            Ok(Some(n)) => r.status == 200 && r.content_type == ContentType::Svg
                && r.body@ == badge_svg(resolve(q@, int_text(n as int))),
            Ok(None) => r.status == 404 && r.content_type == ContentType::PlainText
                && r.body@ == NOT_FOUND_BODY@,
            Err(e) => r.status == 500 && r.content_type == ContentType::PlainText
                && r.body@ == storage_error_text(e),
        },
        (r.status, r.content_type, r.body@) == badge_reply_spec(*incremented, q@),
{
    match incremented {
        Ok(Some(n)) => {
            let message = count_text(*n);
            Reply { status: 200, content_type: ContentType::Svg, body: render(q, message.as_str()) }
        },
        Ok(None) => Reply {
            status: 404,
            content_type: ContentType::PlainText,
            body: String::from_str(NOT_FOUND_BODY),
        },
        Err(e) => storage_failure_reply(e),
    }
}

/// A badge request for an identifier that names no counter is answered 404
/// with `UUID not found`, never as a storage failure, and leaves the store
/// as it was.
pub proof fn lemma_unknown_id_reply(m: Map<u128, i64>, id: u128, q: Seq<(String, String)>)
    requires
        !m.contains_key(id),
    ensures
        badge_reply_spec(increment_result(m, id), q) == (404u16, ContentType::PlainText, NOT_FOUND_BODY@),
        increment_state(m, id) == m,
{
}

/// An unknown style is answered exactly as `flat`, never as an error: two
/// requests that see the same new count and differ only in `style`, one
/// unknown and one `flat`, get the same reply.
pub proof fn lemma_reply_unknown_style_is_flat(
    n: i64,
    q1: Seq<(String, String)>,
    q2: Seq<(String, String)>,
    bogus: Seq<char>,
)
    requires
        query_value(q1, "style"@) == Some(bogus),
        style_of_name(bogus) is None,
        query_value(q2, "style"@) == Some("flat"@),
        same_values_except(q1, q2, "style"@, "style"@),
    ensures
        badge_reply_spec(Ok(Some(n)), q1).0 == 200,
        badge_reply_spec(Ok(Some(n)), q1) == badge_reply_spec(Ok(Some(n)), q2),
{
    lemma_unknown_style_is_flat(q1, q2, bogus, int_text(n as int));
}

/// `messageColor=c` alone is answered exactly as `color=c` alone, all other
/// options and the new count being equal.
pub proof fn lemma_reply_message_color_alias(
    n: i64,
    q1: Seq<(String, String)>,
    q2: Seq<(String, String)>,
    c: Seq<char>,
)
    requires
        query_value(q1, "color"@) == Some(c),
        query_value(q1, "messageColor"@) is None,
        query_value(q2, "color"@) is None,
        query_value(q2, "messageColor"@) == Some(c),
        same_values_except(q1, q2, "color"@, "messageColor"@),
    ensures
        badge_reply_spec(Ok(Some(n)), q1).0 == 200,
        badge_reply_spec(Ok(Some(n)), q1) == badge_reply_spec(Ok(Some(n)), q2),
{
    lemma_message_color_alias(q1, q2, c, int_text(n as int));
}

/// With `color` present, `messageColor` does not change the reply.
pub proof fn lemma_reply_color_overrides_alias(
    n: i64,
    q1: Seq<(String, String)>,
    q2: Seq<(String, String)>,
    c: Seq<char>,
)
    requires
        query_value(q1, "color"@) == Some(c),
        query_value(q2, "color"@) == Some(c),
        same_values_except(q1, q2, "messageColor"@, "messageColor"@),
    ensures
        badge_reply_spec(Ok(Some(n)), q1) == badge_reply_spec(Ok(Some(n)), q2),
{
    lemma_color_overrides_alias(q1, q2, c, int_text(n as int));
}

} // verus!
