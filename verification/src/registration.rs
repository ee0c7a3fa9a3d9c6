//! The registration workflow's computational core: checking the two
//! external credentials, deriving the signed exchange request for a
//! user-supplied token, and committing the exchanged session token to the
//! settings store. The caller collects the token, performs the HTTP
//! exchange and parses its response; success or failure of that exchange
//! comes back here as a plain value.
use crate::settings::SettingsStore;
use url_builder::URLBuilder;
use vstd::prelude::*;
use vstd::string::StringExecFns;

verus! {

/// Errors raised when the required external credentials are absent at
/// startup.
#[derive(Clone, Copy, PartialEq, Eq, Structural, Debug)]
pub enum ConfigError {
    MissingApiKey,
    MissingSharedSecret,
}

/// Errors raised by the registration workflow.
#[derive(Clone, Copy, PartialEq, Eq, Structural, Debug)]
pub enum RegisterError {
    /// The token exchange with the external service failed or its response
    /// could not be parsed; the store is untouched.
    ExchangeFailed,
}

/// The two external-service credentials required at process start.
#[derive(Debug)]
pub struct Credentials {
    pub api_key: String,
    pub shared_secret: String,
}

/// Checks the two required credentials, in the order the commands read
/// them: a missing application key is reported before a missing shared
/// secret, and with both present the pair is returned as given.
pub fn credentials_from(api_key: Option<String>, shared_secret: Option<String>) -> (r: Result<
    Credentials,
    ConfigError,
>)
    ensures
        match r {
            Ok(c) => ({
                &&& api_key matches Some(k) && c.api_key == k
                &&& shared_secret matches Some(s) && c.shared_secret == s
            }),
            Err(e) => ({
                &&& (e == ConfigError::MissingApiKey <==> api_key is None)
                &&& (e == ConfigError::MissingSharedSecret <==> (api_key is Some
                    && shared_secret is None))
            }),
        },
        r is Ok <==> (api_key is Some && shared_secret is Some),
{
    match api_key {
        None => Err(ConfigError::MissingApiKey),
        Some(k) => match shared_secret {
            None => Err(ConfigError::MissingSharedSecret),
            Some(s) => Ok(Credentials { api_key: k, shared_secret: s }),
        },
    }
}

/// The string whose digest signs a token-exchange call, as the external
/// service prescribes: the method's parameters in name order, keys and
/// values run together, with the shared secret appended.
pub open spec fn signature_base(
    api_key: Seq<char>,
    token: Seq<char>,
    shared_secret: Seq<char>,
) -> Seq<char> {
    "api_key"@ + api_key + "methodauth.getSessiontoken"@ + token + shared_secret
}

/// The lowercase hexadecimal digest that the external md5 routine assigns
/// to a string; it depends on the characters alone.
pub uninterp spec fn md5_hex_of(s: Seq<char>) -> Seq<char>;

/// Relies on md5::compute (the digest of the input's bytes, 16 bytes long)
/// and on its Digest's LowerHex rendering (two lowercase hexadecimal digits
/// per byte, 32 in all).
#[verifier::external_body]
fn md5_hex(input: &str) -> (r: String)
    ensures
        r@ == md5_hex_of(input@),
        r@.len() == 32,
{
    let digest = md5::compute(input.as_bytes());
    format!("{:x}", digest)
}

/// The request signature for exchanging `token`: the md5 digest, in
/// lowercase hexadecimal, of the signature base string.
pub fn auth_signature(api_key: &str, token: &str, shared_secret: &str) -> (sig: String)
    ensures
        sig@ == md5_hex_of(signature_base(api_key@, token@, shared_secret@)),
        sig@.len() == 32,
{
    let mut base = String::new();
    base.append("api_key");
    base.append(api_key);
    base.append("methodauth.getSessiontoken");
    base.append(token);
    base.append(shared_secret);
    md5_hex(base.as_str())
}

/// The length of the exchange URL: its fixed scheme, host and parameter
/// names, plus the three caller-supplied values.
pub open spec fn session_url_len(
    api_key: Seq<char>,
    token: Seq<char>,
    api_sig: Seq<char>,
) -> int {
    93int + api_key.len() + token.len() + api_sig.len()
}

/// `url` carries `key=value` somewhere in its query string.
pub open spec fn has_query_param(url: Seq<char>, key: Seq<char>, value: Seq<char>) -> bool {
    exists|i: int|
        0 <= i && i + key.len() + 1 + value.len() <= url.len() && #[trigger] url.subrange(
            i,
            i + key.len() + 1 + value.len(),
        ) == key + seq!['='] + value
}

/// Relies on url_builder::URLBuilder: `build` renders
/// `protocol://host?key=value&...`, the added parameters joined by `&` in
/// an order its internal hash map picks, so only their presence, the fixed
/// prefix and the total length hold of every outcome.
#[verifier::external_body]
fn build_session_url(api_key: &str, token: &str, api_sig: &str) -> (r: String)
    ensures
        r@.len() == session_url_len(api_key@, token@, api_sig@),
        r@.subrange(0, 34) == "https://ws.audioscrobbler.com/2.0?"@,
        has_query_param(r@, "method"@, "auth.getSession"@),
        has_query_param(r@, "token"@, token@),
        has_query_param(r@, "api_key"@, api_key@),
        has_query_param(r@, "api_sig"@, api_sig@),
        has_query_param(r@, "format"@, "json"@),
{
    let mut ub = URLBuilder::new();
    ub.set_protocol("https")
        .set_host("ws.audioscrobbler.com/2.0")
        .add_param("method", "auth.getSession")
        .add_param("token", token)
        .add_param("api_key", api_key)
        .add_param("api_sig", api_sig)
        .add_param("format", "json");
    ub.build()
}

/// The signed exchange request for `token`: the URL of the external
/// service's session call, carrying the method, the token, the application
/// key and the md5 signature over the signature base string.
pub fn exchange_url(credentials: &Credentials, token: &str) -> (url: String)
    ensures
        ({
            let sig = md5_hex_of(
                signature_base(credentials.api_key@, token@, credentials.shared_secret@),
            );
            &&& url@.len() == session_url_len(credentials.api_key@, token@, sig)
            &&& url@.subrange(0, 34) == "https://ws.audioscrobbler.com/2.0?"@
            &&& has_query_param(url@, "method"@, "auth.getSession"@)
            &&& has_query_param(url@, "token"@, token@)
            &&& has_query_param(url@, "api_key"@, credentials.api_key@)
            &&& has_query_param(url@, "api_sig"@, sig)
            &&& has_query_param(url@, "format"@, "json"@)
        }),
{
    let sig = auth_signature(
        credentials.api_key.as_str(),
        token,
        credentials.shared_secret.as_str(),
    );
    build_session_url(credentials.api_key.as_str(), token, sig.as_str())
}

/// Commits the outcome of the token exchange: a session token handed back
/// by the external service is stored for this guild and user (creating the
/// guild's settings entry on first access) and persisted by the caller; a
/// failed or unparseable exchange leaves the store exactly as it was.
pub fn complete_registration(
    store: &mut SettingsStore,
    guild_id: u64,
    user_id: u64,
    exchange: Option<String>,
) -> (r: Result<(), RegisterError>)
    requires
        old(store).wf(),
    ensures
        final(store).wf(),
        match exchange {
            Some(key) => ({
                &&& r == Ok::<(), RegisterError>(())
                &&& final(store).token_of(guild_id, user_id) == Some(key@)
                &&& final(store).settings_of(guild_id) is Some
                &&& forall|u: u64|
                    u != user_id ==> final(store).token_of(guild_id, u) == old(store).token_of(
                        guild_id,
                        u,
                    )
                &&& forall|g: u64|
                    g != guild_id ==> final(store).settings_of(g) == old(store).settings_of(g)
            }),
            None => r == Err::<(), RegisterError>(RegisterError::ExchangeFailed) && *final(store)
                == *old(store),
        },
{
    match exchange {
        Some(key) => {
            store.register_token(guild_id, user_id, key);
            Ok(())
        },
        None => Err(RegisterError::ExchangeFailed),
    }
}

} // verus!
