//! Credentials that authenticate with an API key.
//!
//! API keys are convenient because no principal is needed: the key associates
//! a request with a Google Cloud project for billing and quota purposes. Only
//! some Cloud APIs accept API keys.

use crate::http_headers::{
    header_entries, header_map_insert, header_map_new, header_value_from_str,
    header_value_set_sensitive, is_plain_header_name, is_valid_header_value,
    is_valid_header_value_byte, no_headers,
};
use vstd::prelude::*;
use vstd::utf8::encode_utf8;

verus! {

/// `tokio::time::Instant`, the type of a token's expiry time.
#[verifier::external_type_specification]
#[verifier::external_body]
pub struct ExInstant(tokio::time::Instant);

/// The header that carries the API key.
pub const API_KEY_HEADER_KEY: &'static str = "x-goog-api-key";

/// The header that carries the quota project.
pub const QUOTA_PROJECT_KEY: &'static str = "x-goog-user-project";

/// The name of the environment variable whose value, when set, overrides the
/// quota project configured on a [`Builder`].
pub const QUOTA_PROJECT_ENV_VAR: &'static str = "GOOGLE_CLOUD_QUOTA_PROJECT";

/// A token handed to a service with each request.
#[derive(Clone, Debug, PartialEq)]
pub struct Token {
    /// The token itself.
    pub token: String,
    /// The type of the token (such as `Bearer`); empty for an API key.
    pub token_type: String,
    /// When the token stops being valid, if it ever does.
    pub expires_at: Option<tokio::time::Instant>,
    /// Extra information that came with the token.
    pub metadata: Option<std::collections::HashMap<String, String>>,
}

/// An error while producing credentials.
#[derive(Debug)]
pub struct CredentialsError {
    is_transient: bool,
}

impl CredentialsError {
    /// Whether retrying the same operation may succeed.
    pub closed spec fn transient(&self) -> bool {
        self.is_transient
    }

    /// An error that retrying cannot mend.
    pub fn non_retryable() -> (e: CredentialsError)
        ensures
            !e.transient(),
    {
        CredentialsError { is_transient: false }
    }

    /// Whether retrying the same operation may succeed.
    pub fn is_transient(&self) -> (r: bool)
        ensures
            r == self.transient(),
    {
        self.is_transient
    }
}

/// The text that stands for an API key token provider in debug output.
pub open spec fn censored_debug_text() -> Seq<char> {
    "ApiKeyCredentials { api_key: \"[censored]\" }"@
}

/// Hands out the API key as a token.
pub struct ApiKeyTokenProvider {
    /// The API key.
    pub api_key: String,
}

impl ApiKeyTokenProvider {
    /// The debug representation of the provider. The key itself never
    /// appears in it: the text is the same whatever the key.
    pub fn debug_string(&self) -> (r: String)
        ensures
            r@ == censored_debug_text(),
    {
        "ApiKeyCredentials { api_key: \"[censored]\" }".to_owned()
    }

    /// The token: the API key, with no type, no expiry and no metadata.
    pub fn token(&self) -> (r: Result<Token, CredentialsError>)
        ensures
            r is Ok,
            r->Ok_0.token@ == self.api_key@,
            r->Ok_0.token_type@ == Seq::<char>::empty(),
            r->Ok_0.expires_at is None,
            r->Ok_0.metadata is None,
    {
        Ok(Token {
            token: self.api_key.clone(),
            token_type: String::new(),
            expires_at: None,
            metadata: None,
        })
    }
}

/// What a [`Builder`] holds.
pub struct BuilderView {
    pub api_key: Seq<char>,
    pub quota_project_id: Option<Seq<char>>,
}

/// A builder for credentials that authenticate using an API key.
///
/// API keys are convenient because no principal is needed. The API key
/// associates the request with a Google Cloud project for billing and quota
/// purposes. Only some Cloud APIs support API keys; the rest require full
/// credentials.
#[derive(Debug)]
pub struct Builder {
    api_key: String,
    quota_project_id: Option<String>,
}

impl View for Builder {
    type V = BuilderView;

    closed spec fn view(&self) -> BuilderView {
        BuilderView { api_key: self.api_key@, quota_project_id: self.quota_project_id.deep_view() }
    }
}

/// What [`ApiKeyCredentials`] hold.
pub struct ApiKeyCredentialsView {
    pub api_key: Seq<char>,
    pub quota_project_id: Option<Seq<char>>,
}

/// The quota project that credentials end up with: the environment's value
/// when it is set, the builder's otherwise.
pub open spec fn effective_quota_project(
    env_quota_project_id: Option<Seq<char>>,
    configured: Option<Seq<char>>,
) -> Option<Seq<char>> {
    match env_quota_project_id {
        Some(q) => Some(q),
        None => configured,
    }
}

impl Builder {
    /// Creates a new builder with the given API key and no quota project.
    pub fn new(api_key: &str) -> (b: Builder)
        ensures
            b@ == (BuilderView { api_key: api_key@, quota_project_id: None }),
    {
        Builder { api_key: api_key.to_owned(), quota_project_id: None }
    }

    /// Sets the quota project for these credentials: the project that the
    /// usage is charged to.
    pub fn with_quota_project_id(self, quota_project_id: &str) -> (b: Builder)
        ensures
            b@ == (BuilderView { api_key: self@.api_key, quota_project_id: Some(quota_project_id@) }),
    {
        Builder { api_key: self.api_key, quota_project_id: Some(quota_project_id.to_owned()) }
    }

    /// Builds the credentials, given the value of the quota project
    /// environment variable (`None` where it is not set). The environment's
    /// quota project, when set, takes precedence over the configured one.
    pub fn build_with_env(self, env_quota_project_id: Option<String>) -> (c: ApiKeyCredentials)
        ensures
            c@ == (ApiKeyCredentialsView {
                api_key: self@.api_key,
                quota_project_id: effective_quota_project(env_quota_project_id.deep_view(), self@.quota_project_id),
            }),
    {
        let token_provider = ApiKeyTokenProvider { api_key: self.api_key };
        let quota_project_id = match env_quota_project_id {
            Some(q) => Some(q),
            None => self.quota_project_id,
        };
        ApiKeyCredentials { token_provider, quota_project_id }
    }
}

/// Credentials that authenticate with an API key.
pub struct ApiKeyCredentials {
    token_provider: ApiKeyTokenProvider,
    quota_project_id: Option<String>,
}

impl View for ApiKeyCredentials {
    type V = ApiKeyCredentialsView;

    closed spec fn view(&self) -> ApiKeyCredentialsView {
        ApiKeyCredentialsView {
            api_key: self.token_provider.api_key@,
            quota_project_id: self.quota_project_id.deep_view(),
        }
    }
}

/// Whether the headers for an API key and a quota project can be built: both
/// must be valid header values.
pub open spec fn api_key_headers_valid(api_key: Seq<char>, quota_project_id: Option<Seq<char>>) -> bool {
    &&& is_valid_header_value(api_key)
    &&& quota_project_id matches Some(q) ==> is_valid_header_value(q)
}

/// The headers for an API key and a quota project: the key, marked
/// sensitive, and the quota project where there is one, not sensitive.
pub open spec fn api_key_header_entries(
    api_key: Seq<char>,
    quota_project_id: Option<Seq<char>>,
) -> Map<Seq<char>, Seq<(Seq<u8>, bool)>> {
    let with_key = no_headers().insert(API_KEY_HEADER_KEY@, seq![(encode_utf8(api_key), true)]);
    match quota_project_id {
        Some(q) => with_key.insert(QUOTA_PROJECT_KEY@, seq![(encode_utf8(q), false)]),
        None => with_key,
    }
}

proof fn lemma_header_keys_are_plain()
    ensures
        is_plain_header_name(API_KEY_HEADER_KEY@),
        is_plain_header_name(QUOTA_PROJECT_KEY@),
{
    reveal_strlit("x-goog-api-key");
    reveal_strlit("x-goog-user-project");
}

/// Headers can be built exactly when every byte of the key's UTF-8 encoding,
/// and of the quota project's where there is one, is a byte that header
/// values accept; nothing else about the key (such as its length) matters.
pub proof fn lemma_headers_valid_exactly_on_valid_bytes(
    api_key: Seq<char>,
    quota_project_id: Option<Seq<char>>,
)
    ensures
        api_key_headers_valid(api_key, quota_project_id) <==> ((forall|i: int|
            0 <= i < encode_utf8(api_key).len() ==> {
                let b = #[trigger] encode_utf8(api_key)[i];
                (b >= 32 && b != 127) || b == 9
            }) && (quota_project_id matches Some(q) ==> forall|i: int|
            0 <= i < encode_utf8(q).len() ==> {
                let b = #[trigger] encode_utf8(q)[i];
                (b >= 32 && b != 127) || b == 9
            })),
{
    lemma_valid_value_by_bytes(api_key);
    match quota_project_id {
        Some(q) => {
            lemma_valid_value_by_bytes(q);
        },
        None => {},
    }
}

proof fn lemma_valid_value_by_bytes(s: Seq<char>)
    ensures
        is_valid_header_value(s) <==> forall|i: int|
            0 <= i < encode_utf8(s).len() ==> {
                let b = #[trigger] encode_utf8(s)[i];
                (b >= 32 && b != 127) || b == 9
            },
{
    let k = encode_utf8(s);
    if is_valid_header_value(s) {
        assert forall|i: int| 0 <= i < k.len() implies {
            let b = #[trigger] k[i];
            (b >= 32 && b != 127) || b == 9
        } by {
            assert(is_valid_header_value_byte(k[i]));
        }
    }
    if forall|i: int|
        0 <= i < k.len() ==> {
            let b = #[trigger] k[i];
            (b >= 32 && b != 127) || b == 9
        } {
        assert forall|i: int| 0 <= i < k.len() implies #[trigger] is_valid_header_value_byte(k[i]) by {
            let b = k[i];
        }
    }
}

/// Any key made of printable ASCII characters, of any length, gives
/// headers, and so does any such quota project.
pub proof fn lemma_printable_ascii_keys_are_accepted(
    api_key: Seq<char>,
    quota_project_id: Option<Seq<char>>,
)
    requires
        forall|i: int| 0 <= i < api_key.len() ==> ' ' <= #[trigger] api_key[i] <= '~',
        quota_project_id matches Some(q) ==> forall|i: int|
            0 <= i < q.len() ==> ' ' <= #[trigger] q[i] <= '~',
    ensures
        api_key_headers_valid(api_key, quota_project_id),
{
    vstd::utf8::is_ascii_chars_encode_utf8(api_key);
    match quota_project_id {
        Some(q) => {
            vstd::utf8::is_ascii_chars_encode_utf8(q);
        },
        None => {},
    }
}

/// The headers of API key credentials hold the key, marked sensitive, and
/// hold a quota project header, not sensitive, exactly when there is a
/// quota project: one header without it, two with it.
pub proof fn lemma_api_key_headers_shape(api_key: Seq<char>, quota_project_id: Option<Seq<char>>)
    ensures
        ({
            let entries = api_key_header_entries(api_key, quota_project_id);
            &&& entries.dom().contains(API_KEY_HEADER_KEY@)
            &&& entries[API_KEY_HEADER_KEY@] == seq![(encode_utf8(api_key), true)]
            &&& entries.dom().contains(QUOTA_PROJECT_KEY@) <==> quota_project_id is Some
            &&& quota_project_id matches Some(q) ==> entries[QUOTA_PROJECT_KEY@] == seq![
                (encode_utf8(q), false),
            ]
            &&& entries.dom().len() == if quota_project_id is Some { 2nat } else { 1nat }
        }),
{
    reveal_strlit("x-goog-api-key");
    reveal_strlit("x-goog-user-project");
    assert(API_KEY_HEADER_KEY@.len() != QUOTA_PROJECT_KEY@.len());
    assert(API_KEY_HEADER_KEY@ != QUOTA_PROJECT_KEY@);
    let entries = api_key_header_entries(api_key, quota_project_id);
    let with_key = no_headers().insert(API_KEY_HEADER_KEY@, seq![(encode_utf8(api_key), true)]);
    assert(with_key.dom() =~= set![API_KEY_HEADER_KEY@]);
    match quota_project_id {
        Some(q) => {
            assert(entries.dom() =~= set![API_KEY_HEADER_KEY@, QUOTA_PROJECT_KEY@]);
        },
        None => {},
    }
}

/// Builds the request headers for an API key token and a quota project.
pub fn build_api_key_headers(token: &Token, quota_project_id: &Option<String>) -> (r: Result<
    http::HeaderMap,
    CredentialsError,
>)
    ensures
        r is Ok <==> api_key_headers_valid(token.token@, quota_project_id.deep_view()),
        r is Ok ==> header_entries(r->Ok_0) == api_key_header_entries(token.token@, quota_project_id.deep_view()),
        r is Err ==> !r->Err_0.transient(),
{
    proof {
        lemma_header_keys_are_plain();
    }
    let mut header_map = header_map_new();
    let mut value = match header_value_from_str(token.token.as_str()) {
        Ok(v) => v,
        Err(_) => {
            return Err(CredentialsError::non_retryable());
        },
    };
    header_value_set_sensitive(&mut value, true);
    assert(header_entries(header_map).dom() =~= Set::empty());
    header_map_insert(&mut header_map, API_KEY_HEADER_KEY, value);
    match quota_project_id {
        Some(project) => {
            let project_value = match header_value_from_str(project.as_str()) {
                Ok(v) => v,
                Err(_) => {
                    return Err(CredentialsError::non_retryable());
                },
            };
            assert(header_entries(header_map).dom() =~= set![API_KEY_HEADER_KEY@]);
            header_map_insert(&mut header_map, QUOTA_PROJECT_KEY, project_value);
        },
        None => {},
    }
    Ok(header_map)
}

impl ApiKeyCredentials {
    /// The token for a request: the API key.
    pub fn token(&self, _extensions: http::Extensions) -> (r: Result<Token, CredentialsError>)
        ensures
            r is Ok,
            r->Ok_0.token@ == self@.api_key,
            r->Ok_0.token_type@ == Seq::<char>::empty(),
            r->Ok_0.expires_at is None,
            r->Ok_0.metadata is None,
    {
        self.token_provider.token()
    }

    /// The headers for a request: the API key, marked sensitive, and the quota
    /// project where there is one. It fails, with an error that is not
    /// transient, exactly when the key or the quota project is not a valid
    /// header value.
    pub fn headers(&self, extensions: http::Extensions) -> (r: Result<http::HeaderMap, CredentialsError>)
        ensures
            r is Ok <==> api_key_headers_valid(self@.api_key, self@.quota_project_id),
            r is Ok ==> header_entries(r->Ok_0) == api_key_header_entries(
                self@.api_key,
                self@.quota_project_id,
            ),
            r is Err ==> !r->Err_0.transient(),
    {
        let token = match self.token(extensions) {
            Ok(t) => t,
            Err(e) => {
                return Err(e);
            },
        };
        build_api_key_headers(&token, &self.quota_project_id)
    }
}

} // verus!
