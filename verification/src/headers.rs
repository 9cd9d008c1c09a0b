//! The headers that every request to the forum carries.
//!
//! The headers are held in the header map of `reqwest`, which is the one of
//! the `http` crate under another path. Verus does not look into that crate:
//! what this module takes for granted of it stands in the contracts of
//! `header_value`, `empty_headers` and `put_header`, over the two functions
//! `value_octets` and `header_fields` that name what a value and a map hold.

use crate::config::{Config, ConfigView, Setting};
use crate::text::{decimal, lemma_decimal_is_digits, push_decimal};
use reqwest::header::{HeaderMap, HeaderValue, InvalidHeaderValue};
use vstd::prelude::*;
use vstd::utf8::{encode_utf8, is_ascii_chars, is_ascii_chars_encode_utf8};

verus! {

/// `reqwest::header::HeaderMap`, a map from header names to one or more
/// values each.
#[verifier::external_type_specification]
#[verifier::external_body]
#[verifier::reject_recursive_types(T)]
pub struct ExHeaderMap<T>(reqwest::header::HeaderMap<T>);

/// `reqwest::header::HeaderValue`, the string of octets that is one header
/// value.
#[verifier::external_type_specification]
#[verifier::external_body]
pub struct ExHeaderValue(reqwest::header::HeaderValue);

/// `reqwest::header::InvalidHeaderValue`, the error of a refused value.
#[verifier::external_type_specification]
#[verifier::external_body]
pub struct ExInvalidHeaderValue(reqwest::header::InvalidHeaderValue);

/// The octets that a header value holds, as `HeaderValue::as_bytes` gives
/// them.
pub uninterp spec fn value_octets(value: HeaderValue) -> Seq<u8>;

/// The fields of a header map: each name that it holds, with the octets of
/// the values under that name, the first one first. The map holds names in
/// lower case.
pub uninterp spec fn header_fields(map: HeaderMap<HeaderValue>) -> Map<Seq<char>, Seq<Seq<u8>>>;

/// Whether a header value may hold the octet `b`: anything but a control
/// character, the tab excepted.
pub open spec fn is_value_octet(b: u8) -> bool {
    (b >= 32 && b != 127) || b == 9
}

/// Whether every octet of `octets` may stand in a header value.
pub open spec fn is_value(octets: Seq<u8>) -> bool {
    forall|i: int| 0 <= i < octets.len() ==> is_value_octet(#[trigger] octets[i])
}

/// Whether `name` is a header name made of one to 64 ASCII letters, digits
/// and hyphens.
pub open spec fn is_plain_name(name: Seq<char>) -> bool {
    &&& 1 <= name.len() <= 64
    &&& forall|i: int|
        0 <= i < name.len() ==> {
            let c = #[trigger] name[i];
            ('a' <= c && c <= 'z') || ('A' <= c && c <= 'Z') || ('0' <= c && c <= '9') || c == '-'
        }
}

/// `c` in lower case, where it is an ASCII capital; `c` itself otherwise.
pub open spec fn lower(c: char) -> char {
    if 'A' <= c && c <= 'Z' {
        ((c as u8 + 32) as u8) as char
    } else {
        c
    }
}

/// `name` with its ASCII capitals in lower case.
pub open spec fn lowered(name: Seq<char>) -> Seq<char> {
    Seq::new(name.len(), |i: int| lower(name[i]))
}

/// The number of names below which a header map takes one more without
/// reaching its capacity.
pub const FIELD_LIMIT: usize = 1024;

/// Calls `HeaderValue::from_str`. Taken for granted: the text is accepted
/// if and only if each octet of its UTF-8 form may stand in a header value,
/// and the value then holds exactly those octets.
#[verifier::external_body]
fn header_value(text: &str) -> (r: Result<HeaderValue, InvalidHeaderValue>)
    ensures
        r is Ok <==> is_value(encode_utf8(text@)),
        r is Ok ==> value_octets(r->Ok_0) == encode_utf8(text@),
{
    HeaderValue::from_str(text)
}

/// Calls `HeaderMap::new`. Taken for granted: the new map has no field.
#[verifier::external_body]
fn empty_headers() -> (headers: HeaderMap<HeaderValue>)
    ensures
        header_fields(headers) == (Map::<Seq<char>, Seq<Seq<u8>>>::empty()),
{
    HeaderMap::new()
}

/// Calls `HeaderMap::insert` with a name given as text. Taken for granted:
/// afterwards the lower-case form of the name has `value` as its only
/// value, whatever it had before, and every other field is as it was. The
/// call panics on text that is no header name, and when the map would grow
/// past its capacity; the precondition keeps clear of both.
#[verifier::external_body]
fn put_header(headers: &mut HeaderMap<HeaderValue>, name: &'static str, value: HeaderValue)
    requires
        is_plain_name(name@),
        header_fields(*old(headers)).dom().finite(),
        header_fields(*old(headers)).dom().len() < FIELD_LIMIT,
    ensures
        header_fields(*final(headers)) == header_fields(*old(headers)).insert(
            lowered(name@),
            seq![value_octets(value)],
        ),
{
    headers.insert(name, value);
}

/// Why no headers can be made from a configuration.
#[derive(Clone, Copy, Debug, PartialEq, Eq, Structural)]
pub enum HeaderError {
    /// The value of this setting holds a character that no header can carry.
    Unsendable(Setting),
}

/// The first setting of `c`, if any, whose value no header can carry.
pub open spec fn header_fault(c: ConfigView) -> Option<HeaderError> {
    if !is_value(encode_utf8(c.api_user_id)) {
        Some(HeaderError::Unsendable(Setting::ApiUserId))
    } else if !is_value(encode_utf8(c.api_key)) {
        Some(HeaderError::Unsendable(Setting::ApiKey))
    } else {
        None
    }
}

/// The fields of every request to the forum: the API user, the API key and
/// the content type, each with one value, given as the octets of its text.
pub open spec fn request_fields(c: ConfigView) -> Map<Seq<char>, Seq<Seq<u8>>> {
    Map::<Seq<char>, Seq<Seq<u8>>>::empty().insert(
        "xf-api-user"@,
        seq![encode_utf8(c.api_user_id)],
    ).insert("xf-api-key"@, seq![encode_utf8(c.api_key)]).insert(
        "content-type"@,
        seq![encode_utf8("applications/json"@)],
    )
}

/// The fields of the request that marks the thread read at the moment
/// `epoch_millis`, given in milliseconds since the Unix epoch.
pub open spec fn mark_read_fields(c: ConfigView, epoch_millis: nat) -> Map<
    Seq<char>,
    Seq<Seq<u8>>,
> {
    request_fields(c).insert("date"@, seq![encode_utf8(decimal(epoch_millis))])
}

/// Text made of ASCII characters above the control range is a header value.
proof fn lemma_printable_is_value(text: Seq<char>)
    requires
        forall|i: int| 0 <= i < text.len() ==> ' ' <= #[trigger] text[i] <= '~',
    ensures
        is_value(encode_utf8(text)),
{
    assert(is_ascii_chars(text));
    is_ascii_chars_encode_utf8(text);
    assert forall|i: int| 0 <= i < encode_utf8(text).len() implies is_value_octet(
        #[trigger] encode_utf8(text)[i],
    ) by {
        assert(text[i] as u8 == encode_utf8(text)[i]);
    }
}

/// The headers of a request to the forum: the API user, the API key and the
/// content type. Fails when the user or the key holds a character that no
/// header can carry.
pub fn create_headers(config: &Config) -> (r: Result<HeaderMap<HeaderValue>, HeaderError>)
    ensures
        match r {
            Ok(headers) => header_fault(config@) is None && header_fields(headers)
                == request_fields(config@),
            Err(e) => header_fault(config@) == Some(e),
        },
{
    let user = match header_value(config.api_user_id.as_str()) {
        Ok(v) => v,
        Err(_) => return Err(HeaderError::Unsendable(Setting::ApiUserId)),
    };
    let key = match header_value(config.api_key.as_str()) {
        Ok(v) => v,
        Err(_) => return Err(HeaderError::Unsendable(Setting::ApiKey)),
    };
    proof {
        reveal_strlit("applications/json");
        lemma_printable_is_value("applications/json"@);
    }
    let content_type = header_value("applications/json").unwrap();
    let mut headers = empty_headers();
    proof {
        reveal_strlit("XF-Api-User");
        reveal_strlit("xf-api-user");
        reveal_strlit("XF-Api-Key");
        reveal_strlit("xf-api-key");
        reveal_strlit("Content-Type");
        reveal_strlit("content-type");
        assert(lowered("XF-Api-User"@) =~= "xf-api-user"@);
        assert(lowered("XF-Api-Key"@) =~= "xf-api-key"@);
        assert(lowered("Content-Type"@) =~= "content-type"@);
    }
    put_header(&mut headers, "XF-Api-User", user);
    put_header(&mut headers, "XF-Api-Key", key);
    put_header(&mut headers, "Content-Type", content_type);
    Ok(headers)
}

/// The headers of the request that marks the thread read: those of every
/// request, and the moment of the call under `date`.
pub fn mark_read_headers(config: &Config, epoch_millis: u128) -> (r: Result<
    HeaderMap<HeaderValue>,
    HeaderError,
>)
    ensures
        match r {
            Ok(headers) => header_fault(config@) is None && header_fields(headers)
                == mark_read_fields(config@, epoch_millis as nat),
            Err(e) => header_fault(config@) == Some(e),
        },
{
    let mut headers = match create_headers(config) {
        Ok(h) => h,
        Err(e) => return Err(e),
    };
    let mut stamp = String::new();
    push_decimal(&mut stamp, epoch_millis);
    proof {
        assert(stamp@ == decimal(epoch_millis as nat));
        lemma_decimal_is_digits(epoch_millis as nat);
        lemma_printable_is_value(stamp@);
        reveal_strlit("date");
        assert(lowered("date"@) =~= "date"@);
    }
    let date = header_value(stamp.as_str()).unwrap();
    put_header(&mut headers, "date", date);
    Ok(headers)
}

} // verus!
