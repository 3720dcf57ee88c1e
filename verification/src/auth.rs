//! Who may trigger: the token that a request carries, and whether it is the
//! shared secret.

use actix_web::http::header::{HeaderMap, HeaderValue, ToStrError};
use vstd::prelude::*;

use crate::text;

verus! {

/// The headers of a request, as `actix_web` keeps them.
#[verifier::external_type_specification]
#[verifier::external_body]
pub struct ExHeaderMap(HeaderMap);

/// The value of one header: a string of bytes.
#[verifier::external_type_specification]
#[verifier::external_body]
pub struct ExHeaderValue(HeaderValue);

/// What `HeaderValue::to_str` reports of a value that is no plain text.
#[verifier::external_type_specification]
#[verifier::external_body]
pub struct ExToStrError(ToStrError);

/// What a header map holds: under each header name, in lower case, the values
/// of that name in the order in which they came.
pub uninterp spec fn header_values(headers: HeaderMap) -> Map<Seq<char>, Seq<Seq<u8>>>;

/// The bytes that a header value holds.
pub uninterp spec fn header_bytes(value: HeaderValue) -> Seq<u8>;

/// `c` in lower case where it is an ASCII letter, `c` itself where it is not.
pub open spec fn lower_char(c: char) -> char {
    if 'A' <= c && c <= 'Z' {
        ((c as u8) + 32) as char
    } else {
        c
    }
}

/// `name` with its ASCII letters in lower case.
pub open spec fn lower_case(name: Seq<char>) -> Seq<char> {
    name.map_values(|c: char| lower_char(c))
}

/// `HeaderMap::get` with a name as text: the first value under that name,
/// whatever the case of its letters, and nothing where no value has it (a text
/// that is no header name at all has none).
#[verifier::external_body]
pub(crate) fn get_header<'a>(headers: &'a HeaderMap, name: &str) -> (value: Option<&'a HeaderValue>)
    ensures
        value is Some <==> header_values(*headers).contains_key(lower_case(name@)),
        value matches Some(v) ==> header_bytes(*v) == header_values(*headers)[lower_case(
            name@,
        )][0],
{
    headers.get(name)
}

/// Whether `HeaderValue::to_str` takes the byte: a visible ASCII character, a
/// space or a tab.
pub open spec fn is_text_byte(b: u8) -> bool {
    32 <= b < 127 || b == 9
}

/// The text of a header value, where it is all visible ASCII.
pub open spec fn header_text(bytes: Seq<u8>) -> Option<Seq<char>> {
    if forall|i: int| 0 <= i < bytes.len() ==> is_text_byte(#[trigger] bytes[i]) {
        Some(bytes.map_values(|b: u8| b as char))
    } else {
        None
    }
}

/// `HeaderValue::to_str`: the value as text, character for byte, where each
/// byte is visible ASCII, a space or a tab, and an error where one is not.
pub assume_specification[ HeaderValue::to_str ](value: &HeaderValue) -> (res: Result<
    &str,
    ToStrError,
>)
    ensures
        res is Ok <==> header_text(header_bytes(*value)) is Some,
        res matches Ok(text) ==> text@ == header_text(header_bytes(*value))->0,
;

/// The text of the first value of a header, where the request has the header
/// and its first value is text.
pub open spec fn text_of(headers: HeaderMap, name: Seq<char>) -> Option<Seq<char>> {
    let values = header_values(headers);
    if values.contains_key(name) {
        header_text(values[name][0])
    } else {
        None
    }
}

/// The token among two headers: what follows `Bearer ` in the authorization
/// header, and failing that the key header.
pub open spec fn token_among(
    authorization: Option<Seq<char>>,
    api_key: Option<Seq<char>>,
) -> Option<Seq<char>> {
    match authorization {
        Some(value) => match text::after_prefix(value, "Bearer "@) {
            Some(token) => Some(token),
            None => api_key,
        },
        None => api_key,
    }
}

/// The token that a request carries.
pub open spec fn token_of(headers: HeaderMap) -> Option<Seq<char>> {
    token_among(text_of(headers, "authorization"@), text_of(headers, "x-api-key"@))
}

/// Whether a request with these headers carries the secret.
pub open spec fn admits(headers: HeaderMap, api_secret: Seq<char>) -> bool {
    token_of(headers) == Some(api_secret)
}

/// The text of the first value of a header, if there is any and it is text.
fn readable_header<'a>(headers: &'a HeaderMap, name: &str) -> (res: Option<&'a str>)
    ensures
        text::opt_str(res) == text_of(*headers, lower_case(name@)),
{
    match get_header(headers, name) {
        Some(value) => match value.to_str() {
            Ok(value) => Some(value),
            Err(_) => None,
        },
        None => None,
    }
}

/// Picks the token out of the texts of the two headers that may hold one.
pub fn choose_token<'a>(authorization: Option<&'a str>, api_key: Option<&'a str>) -> (token: Option<
    &'a str,
>)
    ensures
        text::opt_str(token) == token_among(text::opt_str(authorization), text::opt_str(api_key)),
{
    if let Some(auth_str) = authorization {
        if let Some(token) = text::strip_prefix(auth_str, "Bearer ") {
            return Some(token);
        }
    }
    api_key
}

/// The bearer token of a request, and failing that its `X-Api-Key`.
///
/// A header whose value is not plain text counts as one that is not there.
pub fn extract_token(headers: &HeaderMap) -> (token: Option<&str>)
    ensures
        text::opt_str(token) == token_of(*headers),
{
    proof {
        lemma_header_names();
    }
    choose_token(readable_header(headers, "Authorization"), readable_header(headers, "X-Api-Key"))
}

/// Whether the request carries the API secret.
pub fn authenticate(headers: &HeaderMap, api_secret: &str) -> (admitted: bool)
    ensures
        admitted == admits(*headers, api_secret@),
{
    match extract_token(headers) {
        Some(token) => token.eq(api_secret),
        None => false,
    }
}

proof fn lemma_header_names()
    ensures
        lower_case("Authorization"@) == "authorization"@,
        lower_case("X-Api-Key"@) == "x-api-key"@,
{
    reveal_strlit("Authorization");
    reveal_strlit("authorization");
    reveal_strlit("X-Api-Key");
    reveal_strlit("x-api-key");
    assert(lower_case("Authorization"@) =~= "authorization"@);
    assert(lower_case("X-Api-Key"@) =~= "x-api-key"@);
}

/// A bearer token is the token, whatever `X-Api-Key` says.
pub proof fn law_bearer_token_comes_first(secret: Seq<char>, api_key: Option<Seq<char>>)
    ensures
        token_among(Some("Bearer "@ + secret), api_key) == Some(secret),
{
    let header = "Bearer "@ + secret;
    assert("Bearer "@.is_prefix_of(header));
    assert(header.skip("Bearer "@.len() as int) =~= secret);
}

/// Where the authorization header is missing, unreadable or of another scheme,
/// the token is the one in `X-Api-Key`.
pub proof fn law_api_key_is_the_fallback(
    authorization: Option<Seq<char>>,
    api_key: Option<Seq<char>>,
)
    requires
        authorization matches Some(value) ==> !"Bearer "@.is_prefix_of(value),
    ensures
        token_among(authorization, api_key) == api_key,
{
}

/// Either header will do: the secret behind `Bearer `, or, in a request without
/// a bearer token, the secret in `X-Api-Key`.
pub proof fn law_either_header_admits(headers: HeaderMap, secret: Seq<char>)
    requires
        text_of(headers, "authorization"@) == Some("Bearer "@ + secret) || ((text_of(
            headers,
            "authorization"@,
        ) matches Some(value) ==> !"Bearer "@.is_prefix_of(value)) && text_of(
            headers,
            "x-api-key"@,
        ) == Some(secret)),
    ensures
        admits(headers, secret),
{
    if text_of(headers, "authorization"@) == Some("Bearer "@ + secret) {
        law_bearer_token_comes_first(secret, text_of(headers, "x-api-key"@));
    }
}

/// A request in which neither header can be read is refused, whatever the
/// secret.
pub proof fn law_no_token_is_refused(headers: HeaderMap, secret: Seq<char>)
    requires
        text_of(headers, "authorization"@) is None,
        text_of(headers, "x-api-key"@) is None,
    ensures
        !admits(headers, secret),
{
}

/// No request is admitted under two different secrets.
pub proof fn law_one_secret_at_most(headers: HeaderMap, secret: Seq<char>, other: Seq<char>)
    requires
        admits(headers, secret),
        secret != other,
    ensures
        !admits(headers, other),
{
}

/// `Bearer ` with nothing behind it is refused wherever the secret is not
/// empty, and no `X-Api-Key` mends that.
pub proof fn law_bare_bearer_is_refused(headers: HeaderMap, secret: Seq<char>)
    requires
        text_of(headers, "authorization"@) == Some("Bearer "@),
        secret.len() > 0,
    ensures
        !admits(headers, secret),
{
    law_bearer_token_comes_first(Seq::empty(), text_of(headers, "x-api-key"@));
    assert("Bearer "@ + Seq::<char>::empty() =~= "Bearer "@);
}

/// Whether a text is these bytes, character for byte, all of them visible
/// ASCII, spaces or tabs.
pub open spec fn spells(bytes: Seq<u8>, value: Seq<char>) -> bool {
    &&& bytes.len() == value.len()
    &&& forall|i: int|
        0 <= i < bytes.len() ==> (32 <= #[trigger] bytes[i] <= 126 || bytes[i] == 9)
            && value[i] as int == bytes[i] as int
}

/// Whether the first value under this header is there and spells this text.
pub open spec fn first_value_spells(headers: HeaderMap, name: Seq<char>, value: Seq<char>) -> bool {
    header_values(headers).contains_key(name) && spells(header_values(headers)[name][0], value)
}

/// Whether the authorization header holds a bearer token.
pub open spec fn has_bearer_token(headers: HeaderMap) -> bool {
    exists|token: Seq<char>|
        first_value_spells(headers, "authorization"@, #[trigger] ("Bearer "@ + token))
}

/// A header can be read iff each byte of its first value is visible ASCII, a
/// space or a tab, and its text then is those bytes, however many.
pub proof fn law_header_is_read_byte_for_byte(headers: HeaderMap, name: Seq<char>, value: Seq<char>)
    ensures
        text_of(headers, name) == Some(value) <==> first_value_spells(headers, name, value),
        text_of(headers, name) is None <==> forall|other: Seq<char>|
            !#[trigger] first_value_spells(headers, name, other),
{
    lemma_text_of_spells(headers, name, value);
    if text_of(headers, name) is Some {
        lemma_text_of_spells(headers, name, text_of(headers, name)->0);
    }
    assert forall|other: Seq<char>| #[trigger]
        first_value_spells(headers, name, other) implies text_of(headers, name) is Some by {
        lemma_text_of_spells(headers, name, other);
    }
}

proof fn lemma_text_of_spells(headers: HeaderMap, name: Seq<char>, value: Seq<char>)
    ensures
        text_of(headers, name) == Some(value) <==> first_value_spells(headers, name, value),
{
    let bytes = header_values(headers)[name][0];
    if first_value_spells(headers, name, value) {
        assert(forall|i: int| 0 <= i < bytes.len() ==> is_text_byte(#[trigger] bytes[i]));
        assert(bytes.map_values(|b: u8| b as char) =~= value);
    }
    if text_of(headers, name) == Some(value) {
        assert(value == bytes.map_values(|b: u8| b as char));
        assert forall|i: int| 0 <= i < bytes.len() implies (32 <= #[trigger] bytes[i] <= 126
            || bytes[i] == 9) && value[i] as int == bytes[i] as int by {
            assert(is_text_byte(bytes[i]));
        }
    }
}

/// What token a request carries, from the bytes of its headers: the one that
/// follows `Bearer ` in the authorization header, and where there is no such
/// one, all of `X-Api-Key`. Tokens of every length are read alike.
pub proof fn law_token_is_read_from_the_headers(headers: HeaderMap, token: Seq<char>)
    ensures
        token_of(headers) == Some(token) <==> {
            ||| first_value_spells(headers, "authorization"@, "Bearer "@ + token)
            ||| !has_bearer_token(headers) && first_value_spells(headers, "x-api-key"@, token)
        },
{
    let authorization = text_of(headers, "authorization"@);
    let api_key = text_of(headers, "x-api-key"@);
    law_header_is_read_byte_for_byte(headers, "authorization"@, "Bearer "@ + token);
    law_header_is_read_byte_for_byte(headers, "x-api-key"@, token);
    if has_bearer_token(headers) {
        let bearer = choose|bearer: Seq<char>|
            first_value_spells(headers, "authorization"@, #[trigger] ("Bearer "@ + bearer));
        lemma_text_of_spells(headers, "authorization"@, "Bearer "@ + bearer);
        law_bearer_token_comes_first(bearer, api_key);
        if bearer != token {
            assert(("Bearer "@ + token).skip("Bearer "@.len() as int) =~= token);
            assert(("Bearer "@ + bearer).skip("Bearer "@.len() as int) =~= bearer);
        }
    } else {
        if authorization is Some && "Bearer "@.is_prefix_of(authorization->0) {
            let rest = authorization->0.skip("Bearer "@.len() as int);
            assert("Bearer "@ + rest =~= authorization->0);
            lemma_text_of_spells(headers, "authorization"@, "Bearer "@ + rest);
        }
        law_api_key_is_the_fallback(authorization, api_key);
    }
}

/// A request is admitted iff its headers hold the secret, byte for character:
/// behind `Bearer ` in the authorization header, or, where that holds no bearer
/// token, in `X-Api-Key`.
pub proof fn law_admission_rests_on_the_bytes(headers: HeaderMap, secret: Seq<char>)
    ensures
        admits(headers, secret) <==> {
            ||| first_value_spells(headers, "authorization"@, "Bearer "@ + secret)
            ||| !has_bearer_token(headers) && first_value_spells(headers, "x-api-key"@, secret)
        },
{
    law_token_is_read_from_the_headers(headers, secret);
}

/// A secret of any length, in either header alone, admits the request: in
/// `X-Api-Key` where there is no authorization header, and behind `Bearer `
/// where there is one, whatever else the request holds.
pub proof fn law_secret_of_any_length_admits(headers: HeaderMap, secret: Seq<char>)
    requires
        ({
            let values = header_values(headers);
            ||| values.contains_key("authorization"@) && spells(
                values["authorization"@][0],
                "Bearer "@ + secret,
            )
            ||| !values.contains_key("authorization"@) && values.contains_key("x-api-key"@)
                && spells(values["x-api-key"@][0], secret)
        }),
    ensures
        admits(headers, secret),
        token_of(headers) == Some(secret),
{
    law_admission_rests_on_the_bytes(headers, secret);
}

/// Only the letters from `A` to `Z` change when a name is put in lower case,
/// each to the small letter of its own.
pub proof fn law_lower_case(name: Seq<char>)
    ensures
        lower_case(name).len() == name.len(),
        forall|i: int|
            0 <= i < name.len() ==> (#[trigger] lower_case(name)[i]) as int == (if 65
                <= name[i] as int <= 90 {
                name[i] as int + 32
            } else {
                name[i] as int
            }),
{
}

} // verus!
