//! The fixed request headers that accompany every upstream call.

use vstd::prelude::*;
use vstd::string::StringExecFns;
use vstd::string::StringSliceAdditionalSpecFns;
use vstd::utf8::{encode_utf8, is_ascii_chars_encode_utf8};
use reqwest::header::{HeaderMap, HeaderValue};

verus! {

/// The HTTP client's header map.
#[verifier::external_type_specification]
#[verifier::external_body]
#[verifier::reject_recursive_types(T)]
pub struct ExHeaderMap<T>(HeaderMap<T>);

/// The HTTP client's header value.
#[verifier::external_type_specification]
#[verifier::external_body]
pub struct ExHeaderValue(HeaderValue);

/// What a header map holds: under each header name, in lower case, the bytes
/// of each of its values, in the order in which they were added.
pub uninterp spec fn header_map_entries(map: HeaderMap<HeaderValue>) -> Map<Seq<char>, Seq<Seq<u8>>>;

/// The bytes of a header value.
pub uninterp spec fn header_value_bytes(value: HeaderValue) -> Seq<u8>;

/// Whether a byte may stand in a header value: a tab, or anything from the
/// space upwards but the delete character.
pub open spec fn header_octet(byte: u8) -> bool {
    byte == 9 || (byte >= 32 && byte != 127)
}

/// Whether a text may stand as a header value: every byte of its UTF-8 form
/// may.
pub open spec fn header_text(text: Seq<char>) -> bool {
    forall|i: int| 0 <= i < encode_utf8(text).len() ==> header_octet(#[trigger] encode_utf8(text)[i])
}

/// Whether a character is a lower-case letter, a digit or a hyphen.
pub open spec fn plain_name_char(c: char) -> bool {
    ('a' <= c && c <= 'z') || ('0' <= c && c <= '9') || c == '-'
}

/// Whether a text is a header name in its plainest form: one to sixty-four
/// lower-case letters, digits and hyphens.
pub open spec fn plain_header_name(name: Seq<char>) -> bool {
    &&& 1 <= name.len() <= 64
    &&& forall|i: int| 0 <= i < name.len() ==> plain_name_char(#[trigger] name[i])
}

/// The most names that a header map is asked to hold here: far fewer than
/// the map itself can.
pub open spec fn header_map_limit() -> nat {
    1000
}

/// What an empty header map holds.
pub open spec fn no_headers() -> Map<Seq<char>, Seq<Seq<u8>>> {
    Map::empty()
}

/// `HeaderMap::new`: a map that holds nothing.
#[verifier::external_body]
fn empty_header_map() -> (headers: HeaderMap<HeaderValue>)
    ensures
        header_map_entries(headers) == no_headers(),
{
    HeaderMap::new()
}

/// `HeaderValue::from_str`: the text is accepted where each of its bytes is a
/// tab or at least 32 and not 127, and the value then holds those bytes.
#[verifier::external_body]
fn header_value(text: &str) -> (made: Option<HeaderValue>)
    ensures
        made is Some <==> header_text(text@),
        made matches Some(value) ==> header_value_bytes(value) == encode_utf8(text@),
{
    HeaderValue::from_str(text).ok()
}

/// `HeaderMap::insert` with a static name: the value replaces whatever the
/// map held under that name, and nothing else changes. A plain name is valid
/// and stands for itself. `insert` panics only where the map would have to
/// grow beyond 32768 slots, and it grows no sooner than with a fifth of its
/// slots in use, so never with fewer names than the limit.
#[verifier::external_body]
fn insert_header(headers: &mut HeaderMap<HeaderValue>, name: &'static str, value: HeaderValue)
    requires
        plain_header_name(name@),
        header_map_entries(*old(headers)).dom().finite(),
        header_map_entries(*old(headers)).dom().len() < header_map_limit(),
    ensures
        header_map_entries(*final(headers)) == header_map_entries(*old(headers)).insert(
            name@,
            seq![header_value_bytes(value)],
        ),
{
    headers.insert(name, value);
}

/// The two cookie tokens with which the provider is addressed.
#[derive(Debug, Clone, PartialEq, Eq)]
pub struct Tokens {
    pub a_token: String,
    pub r_token: String,
}

/// The token used where the environment names none for `xq_a_token`.
pub open spec fn default_a_token() -> Seq<char> {
    "default_token"@
}

/// The token used where the environment names none for `xq_r_token`.
pub open spec fn default_r_token() -> Seq<char> {
    "default_r_token"@
}

/// A configured value, or the fallback where none is configured.
pub open spec fn or_default(configured: Option<String>, fallback: Seq<char>) -> Seq<char> {
    match configured {
        Some(value) => value@,
        None => fallback,
    }
}

/// The cookie that carries both tokens.
pub open spec fn cookie(a_token: Seq<char>, r_token: Seq<char>) -> Seq<char> {
    "xq_a_token="@ + a_token + ";xq_r_token="@ + r_token + ";"@
}

/// The browser identification with which an upstream call goes out.
pub open spec fn browser_agent() -> Seq<char> {
    "Mozilla/5.0 (Windows NT 10.0; Win64; x64) AppleWebKit/537.36 (KHTML, like Gecko) Chrome/91.0.4472.124 Safari/537.36"@
}

/// The headers of an upstream call: each name with its one value.
pub open spec fn header_table(a_token: Seq<char>, r_token: Seq<char>) -> Map<
    Seq<char>,
    Seq<Seq<u8>>,
> {
    no_headers().insert(
        "cookie"@,
        seq![encode_utf8(cookie(a_token, r_token))],
    ).insert("user-agent"@, seq![encode_utf8("Mozilla/5.0"@)]).insert(
        "origin"@,
        seq![encode_utf8("https://xueqiu.com"@)],
    ).insert("referer"@, seq![encode_utf8("https://xueqiu.com"@)]).insert(
        "x-requested-with"@,
        seq![encode_utf8("XMLHttpRequest"@)],
    )
}

/// The browser identification with which an upstream call goes out.
pub fn browser_agent_text() -> (agent: &'static str)
    ensures
        agent@ == browser_agent(),
{
    "Mozilla/5.0 (Windows NT 10.0; Win64; x64) AppleWebKit/537.36 (KHTML, like Gecko) Chrome/91.0.4472.124 Safari/537.36"
}

/// The name of the environment variable that holds `xq_a_token`.
pub fn a_token_variable() -> (name: &'static str)
    ensures
        name@ == "XQ_A_TOKEN"@,
{
    "XQ_A_TOKEN"
}

/// The name of the environment variable that holds `xq_r_token`.
pub fn r_token_variable() -> (name: &'static str)
    ensures
        name@ == "XQ_R_TOKEN"@,
{
    "XQ_R_TOKEN"
}

/// Whether a text may stand as a header value.
pub fn is_header_text(text: &str) -> (valid: bool)
    ensures
        valid == header_text(text@),
{
    let bytes = text.as_bytes();
    let mut at: usize = 0;
    while at < bytes.len()
        invariant
            at <= bytes.len(),
            bytes@ == encode_utf8(text@),
            forall|i: int| 0 <= i < at ==> header_octet(#[trigger] bytes@[i]),
        decreases bytes.len() - at,
    {
        let byte = bytes[at];
        if !(byte == 9 || (byte >= 32 && byte != 127)) {
            return false;
        }
        at = at + 1;
    }
    true
}

/// A text of printable ASCII characters may stand as a header value.
pub proof fn lemma_printable_is_header_text(text: Seq<char>)
    requires
        forall|i: int| 0 <= i < text.len() ==> ' ' <= #[trigger] text[i] <= '~',
    ensures
        header_text(text),
{
    is_ascii_chars_encode_utf8(text);
    assert forall|i: int| 0 <= i < encode_utf8(text).len() implies header_octet(
        #[trigger] encode_utf8(text)[i],
    ) by {
        assert(' ' <= text[i] <= '~');
        assert(text[i] as u8 == encode_utf8(text)[i]);
    }
}

impl Tokens {
    /// Takes the tokens as configured; a token that is not configured falls
    /// back to its literal default.
    pub fn from_env(a_token: Option<String>, r_token: Option<String>) -> (tokens: Tokens)
        ensures
            tokens.a_token@ == or_default(a_token, default_a_token()),
            tokens.r_token@ == or_default(r_token, default_r_token()),
    {
        let a_token = match a_token {
            Some(value) => value,
            None => String::from_str("default_token"),
        };
        let r_token = match r_token {
            Some(value) => value,
            None => String::from_str("default_r_token"),
        };
        Tokens { a_token, r_token }
    }

    /// The cookie that carries both tokens.
    pub fn cookie(&self) -> (text: String)
        ensures
            text@ == cookie(self.a_token@, self.r_token@),
    {
        let mut text = String::from_str("xq_a_token=");
        text.append(self.a_token.as_str());
        text.append(";xq_r_token=");
        text.append(self.r_token.as_str());
        text.append(";");
        text
    }

    /// Whether the cookie made of the tokens may stand as a header value.
    pub fn is_sendable(&self) -> (sendable: bool)
        ensures
            sendable == header_text(cookie(self.a_token@, self.r_token@)),
    {
        let text = self.cookie();
        is_header_text(text.as_str())
    }
}

/// Makes the value of a header from a text that may stand as one.
fn value_of(text: &str) -> (value: HeaderValue)
    requires
        header_text(text@),
    ensures
        header_value_bytes(value) == encode_utf8(text@),
{
    match header_value(text) {
        Some(value) => value,
        None => vstd::pervasive::unreached(),
    }
}

/// The headers that every upstream call carries.
pub fn create_headers(tokens: &Tokens) -> (headers: HeaderMap<HeaderValue>)
    requires
        header_text(cookie(tokens.a_token@, tokens.r_token@)),
    ensures
        header_map_entries(headers) == header_table(tokens.a_token@, tokens.r_token@),
{
    let cookie_value = tokens.cookie();
    proof {
        lemma_fixed_headers();
    }
    let mut headers = empty_header_map();
    insert_header(&mut headers, "cookie", value_of(cookie_value.as_str()));
    insert_header(&mut headers, "user-agent", value_of("Mozilla/5.0"));
    insert_header(&mut headers, "origin", value_of("https://xueqiu.com"));
    insert_header(&mut headers, "referer", value_of("https://xueqiu.com"));
    insert_header(&mut headers, "x-requested-with", value_of("XMLHttpRequest"));
    headers
}

/// The whole header set of an upstream call: the common headers, with the
/// browser identification in place of the short one.
pub open spec fn request_table(a_token: Seq<char>, r_token: Seq<char>) -> Map<
    Seq<char>,
    Seq<Seq<u8>>,
> {
    header_table(a_token, r_token).insert("user-agent"@, seq![encode_utf8(browser_agent())])
}

/// The headers with which an upstream call goes out: those that every call
/// carries, and the browser identification overriding their `User-Agent`.
pub fn request_headers(tokens: &Tokens) -> (headers: HeaderMap<HeaderValue>)
    requires
        header_text(cookie(tokens.a_token@, tokens.r_token@)),
    ensures
        header_map_entries(headers) == request_table(tokens.a_token@, tokens.r_token@),
{
    let mut headers = create_headers(tokens);
    proof {
        lemma_fixed_headers();
        lemma_browser_agent_is_header_text();
        lemma_header_table_is_small(tokens.a_token@, tokens.r_token@);
    }
    insert_header(&mut headers, "user-agent", value_of(browser_agent_text()));
    headers
}

/// The common headers are at most five.
proof fn lemma_header_table_is_small(a_token: Seq<char>, r_token: Seq<char>)
    ensures
        header_table(a_token, r_token).dom().finite(),
        header_table(a_token, r_token).dom().len() <= 5,
{
}

/// The browser identification may stand as a header value.
proof fn lemma_browser_agent_is_header_text()
    ensures
        header_text(browser_agent()),
{
    reveal_strlit(
        "Mozilla/5.0 (Windows NT 10.0; Win64; x64) AppleWebKit/537.36 (KHTML, like Gecko) Chrome/91.0.4472.124 Safari/537.36",
    );
    lemma_printable_is_header_text(browser_agent());
}

/// The names of the fixed headers are plain, and their fixed values may
/// stand as header values.
proof fn lemma_fixed_headers()
    ensures
        plain_header_name("cookie"@),
        plain_header_name("user-agent"@),
        plain_header_name("origin"@),
        plain_header_name("referer"@),
        plain_header_name("x-requested-with"@),
        header_text("Mozilla/5.0"@),
        header_text("https://xueqiu.com"@),
        header_text("XMLHttpRequest"@),
{
    reveal_strlit("cookie");
    reveal_strlit("user-agent");
    reveal_strlit("origin");
    reveal_strlit("referer");
    reveal_strlit("x-requested-with");
    reveal_strlit("Mozilla/5.0");
    reveal_strlit("https://xueqiu.com");
    reveal_strlit("XMLHttpRequest");
    lemma_printable_is_header_text("Mozilla/5.0"@);
    lemma_printable_is_header_text("https://xueqiu.com"@);
    lemma_printable_is_header_text("XMLHttpRequest"@);
}

} // verus!
