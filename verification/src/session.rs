//! What a session needs around its requests: the headers that carry the
//! session token, the anti-forgery token that the home page holds, the
//! signed-in user's ID, and the rule for response statuses.
use vstd::prelude::*;
use crate::decimal::{has_sign, is_digit, parse_i32_bytes, parse_i32_spec, unsigned_part};
use crate::error::Error;
use crate::trusted::{
    capture_group, header_value_accepts, is_header_char, is_header_text, occurs_in, regex_group,
};

verus! {

/// The origin that every request goes to; also sent as the referer.
pub const BASE_URL_HTTPS: &'static str = "https://www.pixiv.net";

/// The user agent that every request announces.
pub const USER_AGENT: &'static str =
    "Mozilla/5.0 (Windows NT 10.0; Win64; x64) AppleWebKit/537.36 (KHTML, like Gecko) Chrome/114.0.0.0 Safari/537.36";

/// The cookie name under which the session token travels, with its `=`.
pub const SESSION_COOKIE_PREFIX: &'static str = "PHPSESSID=";

/// The name of the header that carries the session cookie.
pub const COOKIE_HEADER: &'static str = "cookie";

/// The name of the header that carries the referer.
pub const REFERER_HEADER: &'static str = "referer";

/// The name of the header that carries the user agent.
pub const USER_AGENT_HEADER: &'static str = "user-agent";

/// The response header in which the platform names the signed-in user.
pub const USER_ID_HEADER: &'static str = "x-userid";

/// The regular expression that finds the anti-forgery token in the home
/// page: the marker `token":"`, then, as group 1, one character that is not
/// a double quote.
pub const CSRF_TOKEN_PATTERN: &'static str = "token\":\"([^\"])";

/// The group of [`CSRF_TOKEN_PATTERN`] that holds the token.
pub const CSRF_TOKEN_GROUP: usize = 1;

/// A header that every request of a session carries.
#[derive(Debug, Clone, PartialEq, Eq)]
pub struct Header {
    /// The header's name, in lower case.
    pub name: &'static str,
    /// The header's value.
    pub value: String,
    /// Whether the value is a credential that must not show up in logs.
    pub sensitive: bool,
}

/// The cookie header value for a session token.
pub open spec fn session_cookie_text(token: Seq<char>) -> Seq<char> {
    SESSION_COOKIE_PREFIX@ + token
}

/// The headers of a session are the cookie, marked sensitive, the referer,
/// which is the origin, and the user agent.
pub open spec fn are_session_headers(headers: Seq<Header>, token: Seq<char>) -> bool {
    &&& headers.len() == 3
    &&& headers[0].name@ == COOKIE_HEADER@
    &&& headers[0].value@ == session_cookie_text(token)
    &&& headers[0].sensitive
    &&& headers[1].name@ == REFERER_HEADER@
    &&& headers[1].value@ == BASE_URL_HTTPS@
    &&& !headers[1].sensitive
    &&& headers[2].name@ == USER_AGENT_HEADER@
    &&& headers[2].value@ == USER_AGENT@
    &&& !headers[2].sensitive
}

/// A cookie can be sent exactly when its token can: the cookie's name adds
/// nothing that a header value may not hold.
pub proof fn lemma_cookie_is_header_text(token: Seq<char>)
    ensures
        is_header_text(session_cookie_text(token)) <==> is_header_text(token),
{
    reveal_strlit("PHPSESSID=");
    let text = session_cookie_text(token);
    if is_header_text(token) {
        assert forall|i: int| 0 <= i < text.len() implies is_header_char(#[trigger] text[i]) by {
            if i >= 10 {
                assert(text[i] == token[i - 10]);
            }
        }
    } else {
        let i = choose|i: int| 0 <= i < token.len() && !is_header_char(#[trigger] token[i]);
        assert(text[i + 10] == token[i]);
    }
}

/// Builds the cookie header value `PHPSESSID=<token>`.
///
/// Fails with [`Error::InvalidCookie`] exactly when the token holds a
/// character that no header value may hold.
pub fn session_cookie(token: &str) -> (result: Result<String, Error>)
    ensures
        result is Ok <==> is_header_text(token@),
        match result {
            Ok(cookie) => cookie@ == session_cookie_text(token@),
            Err(e) => e == Error::InvalidCookie,
        },
{
    let mut cookie: String = String::from_str(SESSION_COOKIE_PREFIX);
    cookie.append(token);
    proof {
        lemma_cookie_is_header_text(token@);
    }
    if header_value_accepts(cookie.as_str()) {
        Ok(cookie)
    } else {
        Err(Error::InvalidCookie)
    }
}

/// Lists the headers that every request of the session carries: the
/// session cookie first, marked sensitive, then the referer and the user
/// agent.
///
/// Fails with [`Error::InvalidCookie`] exactly when the token holds a
/// character that no header value may hold.
pub fn session_headers(token: &str) -> (result: Result<Vec<Header>, Error>)
    ensures
        result is Ok <==> is_header_text(token@),
        match result {
            Ok(headers) => are_session_headers(headers@, token@),
            Err(e) => e == Error::InvalidCookie,
        },
{
    match session_cookie(token) {
        Ok(cookie) => {
            let mut headers: Vec<Header> = Vec::new();
            headers.push(Header { name: COOKIE_HEADER, value: cookie, sensitive: true });
            headers.push(
                Header {
                    name: REFERER_HEADER,
                    value: String::from_str(BASE_URL_HTTPS),
                    sensitive: false,
                },
            );
            headers.push(
                Header {
                    name: USER_AGENT_HEADER,
                    value: String::from_str(USER_AGENT),
                    sensitive: false,
                },
            );
            Ok(headers)
        },
        Err(e) => Err(e),
    }
}

/// The outcome of the token search, given what the pattern captured.
pub open spec fn token_outcome(captured: Option<String>) -> Result<String, Error> {
    match captured {
        Some(token) => Ok(token),
        None => Err(Error::TokenNotFound),
    }
}

/// Decides the token search from what the pattern captured: the capture is
/// the token, and no capture means that the page holds no token.
pub fn csrf_token_from_capture(captured: Option<String>) -> (result: Result<String, Error>)
    ensures
        result == token_outcome(captured),
{
    match captured {
        Some(token) => Ok(token),
        None => Err(Error::TokenNotFound),
    }
}

/// Extracts the anti-forgery token from the text of the home page.
///
/// The token is what group 1 of [`CSRF_TOKEN_PATTERN`] captures. Fails with
/// [`Error::TokenNotFound`] exactly when the pattern captures nothing; a
/// token that is found is a piece of the page.
pub fn csrf_token_from_page(page: &str) -> (result: Result<String, Error>)
    ensures
        result is Ok <==> regex_group(CSRF_TOKEN_PATTERN@, page@, CSRF_TOKEN_GROUP as int) is Some,
        match result {
            Ok(token) => Some(token@) == regex_group(
                CSRF_TOKEN_PATTERN@,
                page@,
                CSRF_TOKEN_GROUP as int,
            ) && occurs_in(token@, page@),
            Err(e) => e == Error::TokenNotFound,
        },
{
    csrf_token_from_capture(capture_group(CSRF_TOKEN_PATTERN, page, CSRF_TOKEN_GROUP))
}

/// Accepts the statuses of the success range, 200 to 299, and turns every
/// other status into [`Error::HttpStatus`].
pub fn check_status(status: u16) -> (result: Result<(), Error>)
    ensures
        result == if 200 <= status <= 299 {
            Ok::<(), Error>(())
        } else {
            Err::<(), Error>(Error::HttpStatus(status))
        },
{
    if 200 <= status && status <= 299 {
        Ok(())
    } else {
        Err(Error::HttpStatus(status))
    }
}

/// A byte that shows as text in a header value: a tab or a printable ASCII
/// character.
pub open spec fn is_visible_ascii(b: u8) -> bool {
    b == 0x09 || 0x20 <= b < 0x7f
}

/// The bytes of a numeral are all visible ASCII: a header value that cannot
/// be shown as text is no numeral either, so the ID can be read from the
/// bytes as they are.
pub proof fn lemma_numeral_is_visible_ascii(bytes: Seq<u8>)
    requires
        parse_i32_spec(bytes) is Some,
    ensures
        forall|i: int| 0 <= i < bytes.len() ==> is_visible_ascii(#[trigger] bytes[i]),
{
    let digits = unsigned_part(bytes);
    assert forall|i: int| 0 <= i < bytes.len() implies is_visible_ascii(#[trigger] bytes[i]) by {
        if has_sign(bytes) {
            if i > 0 {
                assert(bytes[i] == digits[i - 1]);
                assert(is_digit(digits[i - 1]));
            }
        } else {
            assert(is_digit(digits[i]));
        }
    }
}

/// Reads the signed-in user's ID from the value of the `x-userid` header.
///
/// A missing header and a value that is no 32-bit decimal integer both give
/// `None`: the session may simply not be signed in.
pub fn user_id_from_header(value: Option<&[u8]>) -> (id: Option<i32>)
    ensures
        id == match value {
            Some(bytes) => parse_i32_spec(bytes@),
            None => None,
        },
{
    match value {
        Some(bytes) => parse_i32_bytes(bytes),
        None => None,
    }
}

} // verus!
