//! The client handle: an HTTP client that sends the bearer token and the
//! library's user agent with every request.

use vstd::prelude::*;
use vstd::string::StringExecFns;
use vstd::utf8::{
    encode_scalar, encode_utf8, has_width_1_encoding, is_scalar, last_continuation_byte,
    leading_byte_width_1, leading_byte_width_2, leading_byte_width_3, leading_byte_width_4,
    second_last_continuation_byte, third_last_continuation_byte,
};

verus! {

/// The user agent of every request.
pub const APP_USER_AGENT: &'static str = "deepinfra-client-rs/0.1.0";

#[verifier::external_type_specification]
#[verifier::external_body]
pub struct ExHeaderValue(http::HeaderValue);

#[verifier::external_type_specification]
#[verifier::external_body]
pub struct ExInvalidHeaderValue(http::header::InvalidHeaderValue);

#[verifier::external_type_specification]
#[verifier::external_body]
#[verifier::reject_recursive_types(T)]
pub struct ExHeaderMap<T>(http::HeaderMap<T>);

#[verifier::external_type_specification]
#[verifier::external_body]
pub struct ExClient(reqwest::Client);

#[verifier::external_type_specification]
#[verifier::external_body]
pub struct ExClientBuilder(reqwest::ClientBuilder);

#[verifier::external_type_specification]
#[verifier::external_body]
pub struct ExReqwestError(reqwest::Error);

/// The bytes of a header value.
pub uninterp spec fn header_value_bytes(value: http::HeaderValue) -> Seq<u8>;

/// The headers of a header map that holds one value for each name: from
/// each name, in lower case, to the bytes of its value.
pub uninterp spec fn header_entries(headers: http::HeaderMap<http::HeaderValue>) -> Map<
    Seq<char>,
    Seq<u8>,
>;

/// The default headers that a builder has been given: from each name, in
/// lower case, to the bytes of its value.
pub uninterp spec fn builder_headers(builder: reqwest::ClientBuilder) -> Map<Seq<char>, Seq<u8>>;

/// The message of a `reqwest::Error`, as it displays itself.
pub uninterp spec fn error_message(error: reqwest::Error) -> Seq<char>;

/// The headers that a client adds to every request that does not set them
/// itself: from each name, in lower case, to the bytes of its value.
pub uninterp spec fn default_headers(client: reqwest::Client) -> Map<Seq<char>, Seq<u8>>;

/// The headers of a map that holds none.
pub open spec fn no_headers() -> Map<Seq<char>, Seq<u8>> {
    Map::empty()
}

/// Whether `c` is a lower-case letter, a digit or a hyphen.
pub open spec fn lower_case_name_char(c: char) -> bool {
    'a' <= c <= 'z' || '0' <= c <= '9' || c == '-'
}

/// Whether `name` is a header name in lower case: from one to 64 lower-case
/// letters, digits and hyphens.
pub open spec fn lower_case_name(name: Seq<char>) -> bool {
    &&& 1 <= name.len() <= 64
    &&& forall|i: int| 0 <= i < name.len() ==> lower_case_name_char(#[trigger] name[i])
}

/// The default headers of a builder that was given none: `accept`, with the
/// value `*/*`.
pub open spec fn builder_defaults() -> Map<Seq<char>, Seq<u8>> {
    no_headers().insert("accept"@, encode_utf8("*/*"@))
}

/// The headers that a client for `token` adds to every request: what any
/// client accepts, the bearer token, and the library's user agent. The token
/// is in the `authorization` header and in no other.
pub open spec fn client_headers(token: Seq<char>) -> Map<Seq<char>, Seq<u8>> {
    builder_defaults().insert("authorization"@, encode_utf8(bearer(token))).insert(
        "user-agent"@,
        encode_utf8(APP_USER_AGENT@),
    )
}

/// What is known of the names of the default headers: enough to tell them
/// apart, and that the name of the token's header is in lower case.
pub proof fn lemma_header_names()
    ensures
        "accept"@.len() == 6,
        "authorization"@.len() == 13,
        "user-agent"@.len() == 10,
        lower_case_name("authorization"@),
{
    reveal_strlit("accept");
    reveal_strlit("authorization");
    reveal_strlit("user-agent");
    let name = "authorization"@;
    assert(lower_case_name(name)) by {
        assert(name[0] == 'a');
        assert(name[1] == 'u');
        assert(name[2] == 't');
        assert(name[3] == 'h');
        assert(name[4] == 'o');
        assert(name[5] == 'r');
        assert(name[6] == 'i');
        assert(name[7] == 'z');
        assert(name[8] == 'a');
        assert(name[9] == 't');
        assert(name[10] == 'i');
        assert(name[11] == 'o');
        assert(name[12] == 'n');
    }
}

/// The headers of a client: the bearer token under `authorization`, the
/// library's user agent under `user-agent`, `*/*` under `accept`, and
/// nothing else.
pub proof fn lemma_client_headers(token: Seq<char>)
    ensures
        client_headers(token).dom() == set!["accept"@, "authorization"@, "user-agent"@],
        client_headers(token)["authorization"@] == encode_utf8(bearer(token)),
        client_headers(token)["user-agent"@] == encode_utf8(APP_USER_AGENT@),
        client_headers(token)["accept"@] == encode_utf8("*/*"@),
{
    lemma_header_names();
    assert(client_headers(token).dom() =~= set!["accept"@, "authorization"@, "user-agent"@]);
}

/// Two clients differ in the `authorization` header alone: whatever their
/// tokens, every other header is the same, the user agent among them.
pub proof fn lemma_clients_differ_in_authorization(first: Seq<char>, second: Seq<char>)
    ensures
        client_headers(first).remove("authorization"@) == client_headers(second).remove(
            "authorization"@,
        ),
        client_headers(first)["user-agent"@] == client_headers(second)["user-agent"@],
{
    lemma_header_names();
    assert(client_headers(first).remove("authorization"@) =~= client_headers(second).remove(
        "authorization"@,
    ));
}

/// Whether `byte` may stand in a header value: a tab, or anything from the
/// space up but the delete character.
pub open spec fn valid_header_byte(byte: u8) -> bool {
    byte >= 32 && byte != 127 || byte == 9
}

/// Whether `bytes` can be a header value.
pub open spec fn valid_header_value(bytes: Seq<u8>) -> bool {
    forall|i: int| 0 <= i < bytes.len() ==> valid_header_byte(#[trigger] bytes[i])
}

/// Whether `c` may stand in a header value: a tab, or any character that is
/// not an ASCII control character.
pub open spec fn valid_header_char(c: char) -> bool {
    (c as u32) >= 32 && (c as u32) != 127 || (c as u32) == 9
}

/// Whether `text` can be a header value: it holds no ASCII control character
/// but tabs.
pub open spec fn valid_header_text(text: Seq<char>) -> bool {
    forall|i: int| 0 <= i < text.len() ==> valid_header_char(#[trigger] text[i])
}

/// The bytes that encode one character can stand in a header value exactly
/// when the character can.
pub proof fn lemma_valid_header_scalar(c: char)
    ensures
        valid_header_value(encode_scalar(c as u32)) <==> valid_header_char(c),
{
    let s = c as u32;
    let bytes = encode_scalar(s);
    assert(is_scalar(s));
    if has_width_1_encoding(s) {
        let b = leading_byte_width_1(s);
        assert(b as u32 == s) by (bit_vector)
            requires
                s <= 0x7F,
                b == (s & 0x7F) as u8,
        ;
        assert(bytes[0] == b);
        assert(valid_header_value(bytes) <==> valid_header_byte(b)) by {
            if valid_header_byte(b) {
                assert forall|i: int| 0 <= i < bytes.len() implies valid_header_byte(
                    #[trigger] bytes[i],
                ) by {
                    assert(bytes[i] == b);
                }
            }
        }
    } else {
        let last = last_continuation_byte(s);
        let second = second_last_continuation_byte(s);
        let third = third_last_continuation_byte(s);
        let lead2 = leading_byte_width_2(s);
        let lead3 = leading_byte_width_3(s);
        let lead4 = leading_byte_width_4(s);
        assert(last >= 0x80) by (bit_vector)
            requires
                last == 0x80 | (s & 0x3F) as u8,
        ;
        assert(second >= 0x80) by (bit_vector)
            requires
                second == 0x80 | ((s >> 6) & 0x3F) as u8,
        ;
        assert(third >= 0x80) by (bit_vector)
            requires
                third == 0x80 | ((s >> 12) & 0x3F) as u8,
        ;
        assert(lead2 >= 0x80) by (bit_vector)
            requires
                lead2 == 0xC0 | ((s >> 6) & 0x1F) as u8,
        ;
        assert(lead3 >= 0x80) by (bit_vector)
            requires
                lead3 == 0xE0 | ((s >> 12) & 0x0F) as u8,
        ;
        assert(lead4 >= 0x80) by (bit_vector)
            requires
                lead4 == 0xF0 | ((s >> 18) & 0x7) as u8,
        ;
        assert forall|i: int| 0 <= i < bytes.len() implies valid_header_byte(
            #[trigger] bytes[i],
        ) by {
            assert(bytes[i] >= 0x80);
        }
    }
}

/// Two runs of bytes can stand in a header value exactly when both can.
pub proof fn lemma_valid_header_concat(left: Seq<u8>, right: Seq<u8>)
    ensures
        valid_header_value(left + right) <==> valid_header_value(left) && valid_header_value(
            right,
        ),
{
    let both = left + right;
    if valid_header_value(both) {
        assert forall|i: int| 0 <= i < left.len() implies valid_header_byte(#[trigger] left[i]) by {
            assert(both[i] == left[i]);
        }
        assert forall|i: int| 0 <= i < right.len() implies valid_header_byte(
            #[trigger] right[i],
        ) by {
            assert(both[left.len() + i] == right[i]);
        }
    }
}

/// A text can be sent as a header value exactly when it holds no ASCII
/// control character but tabs; characters beyond ASCII are all accepted.
pub proof fn lemma_valid_header_text(text: Seq<char>)
    ensures
        valid_header_value(encode_utf8(text)) <==> valid_header_text(text),
    decreases text.len(),
{
    if text.len() > 0 {
        let rest = text.drop_first();
        lemma_valid_header_scalar(text[0]);
        lemma_valid_header_text(rest);
        lemma_valid_header_concat(encode_scalar(text[0] as u32), encode_utf8(rest));
        if valid_header_text(text) {
            assert forall|i: int| 0 <= i < rest.len() implies valid_header_char(
                #[trigger] rest[i],
            ) by {
                assert(rest[i] == text[i + 1]);
            }
        }
        if valid_header_char(text[0]) && valid_header_text(rest) {
            assert forall|i: int| 0 <= i < text.len() implies valid_header_char(
                #[trigger] text[i],
            ) by {
                if i > 0 {
                    assert(text[i] == rest[i - 1]);
                }
            }
        }
    }
}

/// The `Authorization` value for a token can be sent exactly when the token
/// holds no ASCII control character but tabs.
pub proof fn lemma_bearer_valid(token: Seq<char>)
    ensures
        valid_header_value(encode_utf8(bearer(token))) <==> valid_header_text(token),
{
    reveal_strlit("Bearer ");
    let prefix = "Bearer "@;
    let whole = bearer(token);
    lemma_valid_header_text(whole);
    assert(prefix.len() == 7);
    assert(valid_header_text(prefix)) by {
        assert(prefix[0] == 'B' && prefix[1] == 'e' && prefix[2] == 'a' && prefix[3] == 'r'
            && prefix[4] == 'e' && prefix[5] == 'r' && prefix[6] == ' ');
    }
    if valid_header_text(whole) {
        assert forall|i: int| 0 <= i < token.len() implies valid_header_char(
            #[trigger] token[i],
        ) by {
            assert(whole[7 + i] == token[i]);
        }
    }
    if valid_header_text(token) {
        assert forall|i: int| 0 <= i < whole.len() implies valid_header_char(
            #[trigger] whole[i],
        ) by {
            if i < 7 {
                assert(whole[i] == prefix[i]);
            } else {
                assert(whole[i] == token[i - 7]);
            }
        }
    }
}

/// The library's user agent can stand in a header.
pub proof fn lemma_user_agent_valid()
    ensures
        valid_header_value(encode_utf8(APP_USER_AGENT@)),
{
    reveal_strlit("deepinfra-client-rs/0.1.0");
    let agent = APP_USER_AGENT@;
    assert(agent.len() == 25);
    assert(valid_header_text(agent)) by {
            assert(agent[0] == 'd');
            assert(agent[1] == 'e');
            assert(agent[2] == 'e');
            assert(agent[3] == 'p');
            assert(agent[4] == 'i');
            assert(agent[5] == 'n');
            assert(agent[6] == 'f');
            assert(agent[7] == 'r');
            assert(agent[8] == 'a');
            assert(agent[9] == '-');
            assert(agent[10] == 'c');
            assert(agent[11] == 'l');
            assert(agent[12] == 'i');
            assert(agent[13] == 'e');
            assert(agent[14] == 'n');
            assert(agent[15] == 't');
            assert(agent[16] == '-');
            assert(agent[17] == 'r');
            assert(agent[18] == 's');
            assert(agent[19] == '/');
            assert(agent[20] == '0');
            assert(agent[21] == '.');
            assert(agent[22] == '1');
            assert(agent[23] == '.');
            assert(agent[24] == '0');
    }
    lemma_valid_header_text(agent);
}

/// The value of the `Authorization` header for `token`.
pub open spec fn bearer(token: Seq<char>) -> Seq<char> {
    "Bearer "@ + token
}

/// `http::HeaderValue::from_str`: accepts a text exactly when each of its
/// bytes is a tab or is at least 32 and not 127, and keeps the bytes.
#[verifier::external_body]
fn header_value_from_str(text: &str) -> (parsed: Result<
    http::HeaderValue,
    http::header::InvalidHeaderValue,
>)
    ensures
        parsed is Ok <==> valid_header_value(encode_utf8(text@)),
        parsed matches Ok(value) ==> header_value_bytes(value) == encode_utf8(text@),
{
    http::HeaderValue::from_str(text)
}

/// `http::HeaderMap::new`: a map without headers.
#[verifier::external_body]
fn new_header_map() -> (headers: http::HeaderMap<http::HeaderValue>)
    ensures
        header_entries(headers) == no_headers(),
{
    http::HeaderMap::new()
}

/// `http::HeaderMap::insert` under a name that is in lower case already,
/// which the map keeps as it is. The map is empty before, so it cannot be
/// full.
#[verifier::external_body]
fn insert_header(
    headers: &mut http::HeaderMap<http::HeaderValue>,
    name: &'static str,
    value: http::HeaderValue,
)
    requires
        header_entries(*old(headers)) == no_headers(),
        lower_case_name(name@),
    ensures
        header_entries(*final(headers)) == header_entries(*old(headers)).insert(
            name@,
            header_value_bytes(value),
        ),
{
    headers.insert(name, value);
}

/// `reqwest::Client::builder`: a builder whose one default header is
/// `accept`, with the value `*/*`.
#[verifier::external_body]
fn client_builder() -> (builder: reqwest::ClientBuilder)
    ensures
        builder_headers(builder) == builder_defaults(),
{
    reqwest::Client::builder()
}

/// `reqwest::ClientBuilder::default_headers`: each of `headers` becomes a
/// default header, in place of one of the same name; the other default
/// headers stay. Both maps are small, so the builder's map cannot become
/// full.
#[verifier::external_body]
fn with_default_headers(
    builder: reqwest::ClientBuilder,
    headers: http::HeaderMap<http::HeaderValue>,
) -> (out: reqwest::ClientBuilder)
    requires
        header_entries(headers).dom().finite(),
        header_entries(headers).dom().len() <= 1,
        builder_headers(builder).dom().finite(),
        builder_headers(builder).dom().len() <= 1,
    ensures
        builder_headers(out) == builder_headers(builder).union_prefer_right(
            header_entries(headers),
        ),
{
    builder.default_headers(headers)
}

/// `reqwest::ClientBuilder::user_agent`: a value that can stand in a header
/// becomes the default header `user-agent`, in place of one that is there;
/// any other value leaves the headers as they are and fails the build later.
/// The builder's map is small, so it cannot become full.
#[verifier::external_body]
fn with_user_agent(builder: reqwest::ClientBuilder, user_agent: &'static str) -> (out:
    reqwest::ClientBuilder)
    requires
        builder_headers(builder).dom().finite(),
        builder_headers(builder).dom().len() <= 2,
    ensures
        builder_headers(out) == if valid_header_value(encode_utf8(user_agent@)) {
            builder_headers(builder).insert("user-agent"@, encode_utf8(user_agent@))
        } else {
            builder_headers(builder)
        },
{
    builder.user_agent(user_agent)
}

/// `reqwest::ClientBuilder::build`. Whether a client can be built depends on
/// the machine. One that was built has the builder's default headers.
#[verifier::external_body]
fn build(builder: reqwest::ClientBuilder) -> (built: Result<reqwest::Client, reqwest::Error>)
    ensures
        built matches Ok(client) ==> default_headers(client) == builder_headers(builder),
{
    builder.build()
}

/// `Clone` of `reqwest::Client`: the copy shares the client's configuration,
/// its default headers among it.
pub assume_specification[ <reqwest::Client as Clone>::clone ](client: &reqwest::Client) -> (copy:
    reqwest::Client)
    ensures
        default_headers(copy) == default_headers(*client),
;

/// The `Display` text of a `reqwest::Error`, which [`error_message`] names.
#[verifier::external_body]
fn reqwest_error_text(error: &reqwest::Error) -> (text: String)
    ensures
        text@ == error_message(*error),
{
    error.to_string()
}

/// The `Display` text of an `http::header::InvalidHeaderValue`, which is the
/// same for every such error.
#[verifier::external_body]
fn invalid_header_text(error: &http::header::InvalidHeaderValue) -> (text: String)
    ensures
        text@ == "failed to parse header value"@,
{
    error.to_string()
}

/// A client for the DeepInfra API. It has no state that changes, and may be
/// shared by any number of callers.
#[derive(Clone, Debug)]
pub struct DeepinfraClient {
    client: reqwest::Client,
}

/// Why no client could be built. The payload is the failure's message.
#[derive(Debug, Clone, PartialEq, Eq)]
pub enum DeepinfraClientBuilderError {
    /// The HTTP client could not be built.
    ReqwestError(String),
    /// The token cannot stand in a header.
    InvalidHeaderValue(String),
}

impl DeepinfraClient {
    /// The headers that the client adds to every request.
    pub closed spec fn headers(&self) -> Map<Seq<char>, Seq<u8>> {
        default_headers(self.client)
    }

    /// What becomes of the attempt to build the HTTP client.
    pub fn from_built(built: Result<reqwest::Client, reqwest::Error>) -> (made: Result<
        DeepinfraClient,
        DeepinfraClientBuilderError,
    >)
        ensures
            match built {
                Ok(client) => made matches Ok(handle) && handle.headers() == default_headers(
                    client,
                ),
                Err(error) => made matches Err(DeepinfraClientBuilderError::ReqwestError(text))
                    && text@ == error_message(error),
            },
    {
        match built {
            Ok(client) => Ok(DeepinfraClient { client }),
            Err(error) => Err(
                DeepinfraClientBuilderError::ReqwestError(reqwest_error_text(&error)),
            ),
        }
    }

    /// A client that authenticates with `token`.
    ///
    /// A token that cannot stand in a header value is refused. For any other
    /// token the HTTP client is built, which may fail on this machine; if it
    /// does not, every request carries `Authorization: Bearer <token>`, the
    /// library's user agent and `Accept: */*`, and no other header of the
    /// client's.
    pub fn new(token: &str) -> (made: Result<DeepinfraClient, DeepinfraClientBuilderError>)
        ensures
            !valid_header_text(token@) ==> (made matches Err(
                DeepinfraClientBuilderError::InvalidHeaderValue(text),
            ) && text@ == "failed to parse header value"@),
            valid_header_text(token@) ==> (made is Ok || made matches Err(
                DeepinfraClientBuilderError::ReqwestError(_),
            )),
            made matches Ok(handle) ==> handle.headers() == client_headers(token@),
    {
        let mut text = "Bearer ".to_owned();
        text.append(token);
        proof {
            lemma_bearer_valid(token@);
        }
        let value = match header_value_from_str(text.as_str()) {
            Ok(value) => value,
            Err(error) => {
                return Err(
                    DeepinfraClientBuilderError::InvalidHeaderValue(invalid_header_text(&error)),
                );
            },
        };
        proof {
            lemma_header_names();
            lemma_user_agent_valid();
        }
        let mut headers = new_header_map();
        insert_header(&mut headers, "authorization", value);
        let ghost sent = header_entries(headers);
        proof {
            assert(sent.dom() =~= set!["authorization"@]);
            assert(builder_defaults().dom() =~= set!["accept"@]);
        }
        let builder = with_default_headers(client_builder(), headers);
        proof {
            let given = builder_headers(builder);
            assert(given =~= builder_defaults().insert(
                "authorization"@,
                encode_utf8(bearer(token@)),
            ));
            assert(given.dom() =~= set!["accept"@, "authorization"@]);
        }
        let builder = with_user_agent(builder, APP_USER_AGENT);
        DeepinfraClient::from_built(build(builder))
    }

    /// The HTTP client, for sending requests.
    pub fn http(&self) -> (client: &reqwest::Client)
        ensures
            default_headers(*client) == self.headers(),
    {
        &self.client
    }
}

impl DeepinfraClientBuilderError {
    /// The message of this error.
    pub fn describe(&self) -> (text: String)
        ensures
            text@ == match self {
                DeepinfraClientBuilderError::ReqwestError(m) => "Could not build client "@ + m@,
                DeepinfraClientBuilderError::InvalidHeaderValue(m) => "Invalid header value "@
                    + m@,
            },
    {
        match self {
            DeepinfraClientBuilderError::ReqwestError(m) => {
                let mut text = "Could not build client ".to_owned();
                text.append(m.as_str());
                text
            },
            DeepinfraClientBuilderError::InvalidHeaderValue(m) => {
                let mut text = "Invalid header value ".to_owned();
                text.append(m.as_str());
                text
            },
        }
    }
}

} // verus!
