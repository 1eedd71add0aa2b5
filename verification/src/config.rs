//! Configuration for the application: which repository to inspect and
//! how to authenticate. The authentication mode is a tagged choice, so
//! a value carrying both a plain token and an app-credential pair is
//! not representable. The loader turns raw optional inputs (flags or
//! environment values, read elsewhere) into a validated `AppOptions`,
//! rejecting conflicting, incomplete or absent authentication inputs.

use vstd::prelude::*;

verus! {

/// How the application authenticates against the hosting API:
/// either a plain personal token, or an app id with its private key.
#[derive(Debug, Clone)]
pub enum AuthMode {
    Token(String),
    AppCredentials { app_id: u64, private_key: String },
}

/// Why a set of raw configuration inputs was rejected.
#[derive(Debug, Clone, Copy, PartialEq, Eq, Structural)]
pub enum ConfigError {
    /// Both a token and part of an app-credential pair were supplied.
    ConflictingAuth,
    /// Neither a token nor any app-credential input was supplied.
    MissingAuth,
    /// Only one half of the app-credential pair was supplied.
    IncompleteAppCredentials,
}

/// Validated, immutable options: a name for the application, one
/// authentication mode, the account handle and the repository name.
#[derive(Debug, Clone)]
pub struct AppOptions {
    pub app_name: String,
    pub auth: AuthMode,
    pub gh_user: String,
    pub repo_name: String,
}

/// The default used for the application name, the account handle and
/// the repository name when no input supplies them.
pub open spec fn spec_default_name() -> Seq<char> {
    "gh-rs"@
}

/// A token was supplied together with some app-credential input.
pub open spec fn conflicting_auth(
    token: Option<String>,
    app_id: Option<u64>,
    app_private_key: Option<String>,
) -> bool {
    token is Some && (app_id is Some || app_private_key is Some)
}

/// No authentication input at all was supplied.
pub open spec fn missing_auth(
    token: Option<String>,
    app_id: Option<u64>,
    app_private_key: Option<String>,
) -> bool {
    token is None && app_id is None && app_private_key is None
}

/// No token, and exactly one half of the app-credential pair.
pub open spec fn incomplete_app_credentials(
    token: Option<String>,
    app_id: Option<u64>,
    app_private_key: Option<String>,
) -> bool {
    token is None && (app_id is Some) != (app_private_key is Some)
}

/// Exactly one authentication mode is supplied: a token alone, or the
/// complete app-credential pair alone.
pub open spec fn exactly_one_auth(
    token: Option<String>,
    app_id: Option<u64>,
    app_private_key: Option<String>,
) -> bool {
    ||| (token is Some && app_id is None && app_private_key is None)
    ||| (token is None && app_id is Some && app_private_key is Some)
}

/// The characters an optional name input yields: its own if supplied,
/// the default otherwise.
pub open spec fn name_or_default(input: Option<String>) -> Seq<char> {
    match input {
        Some(s) => s@,
        None => spec_default_name(),
    }
}

/// `auth` is the token mode, carrying the characters `t`.
pub open spec fn token_auth(auth: AuthMode, t: Seq<char>) -> bool {
    auth matches AuthMode::Token(s) && s@ == t
}

/// `auth` is the app-credential mode, carrying the id `id` and the
/// private-key characters `key`.
pub open spec fn app_credential_auth(auth: AuthMode, id: u64, key: Seq<char>) -> bool {
    auth matches AuthMode::AppCredentials { app_id, private_key } && app_id == id
        && private_key@ == key
}

/// The default name as a `String`.
fn default_name() -> (r: String)
    ensures
        r@ == spec_default_name(),
{
    String::from_str("gh-rs")
}

/// The supplied name, or the default where none was supplied.
fn or_default(input: Option<String>) -> (r: String)
    ensures
        r@ == name_or_default(input),
{
    match input {
        Some(s) => s,
        None => default_name(),
    }
}

/// Builds validated options from raw inputs. Exactly one
/// authentication mode must be supplied: a token alone, or the
/// complete app-credential pair alone; anything else is rejected
/// before any use of the inputs. Unsupplied names fall back to the
/// default.
pub fn load_options(
    app_name: Option<String>,
    token: Option<String>,
    gh_user: Option<String>,
    repo_name: Option<String>,
    app_id: Option<u64>,
    app_private_key: Option<String>,
) -> (r: Result<AppOptions, ConfigError>)
    ensures
        r is Ok <==> exactly_one_auth(token, app_id, app_private_key),
        r == Err::<AppOptions, ConfigError>(ConfigError::ConflictingAuth) <==> conflicting_auth(
            token,
            app_id,
            app_private_key,
        ),
        r == Err::<AppOptions, ConfigError>(ConfigError::MissingAuth) <==> missing_auth(
            token,
            app_id,
            app_private_key,
        ),
        r == Err::<AppOptions, ConfigError>(ConfigError::IncompleteAppCredentials)
            <==> incomplete_app_credentials(token, app_id, app_private_key),
        r matches Ok(o) ==> {
            &&& o.app_name@ == name_or_default(app_name)
            &&& o.gh_user@ == name_or_default(gh_user)
            &&& o.repo_name@ == name_or_default(repo_name)
            &&& (token matches Some(t) ==> token_auth(o.auth, t@))
            &&& (token is None ==> (app_id matches Some(id) && app_private_key matches Some(pk)
                && app_credential_auth(o.auth, id, pk@)))
        },
{
    match token {
        Some(t) => {
            if app_id.is_some() || app_private_key.is_some() {
                Err(ConfigError::ConflictingAuth)
            } else {
                Ok(AppOptions {
                    app_name: or_default(app_name),
                    auth: AuthMode::Token(t),
                    gh_user: or_default(gh_user),
                    repo_name: or_default(repo_name),
                })
            }
        },
        None => {
            match (app_id, app_private_key) {
                (Some(id), Some(key)) => Ok(AppOptions {
                    app_name: or_default(app_name),
                    auth: (AuthMode::AppCredentials { app_id: id, private_key: key }),
                    gh_user: or_default(gh_user),
                    repo_name: or_default(repo_name),
                }),
                (None, None) => Err(ConfigError::MissingAuth),
                _ => Err(ConfigError::IncompleteAppCredentials),
            }
        },
    }
}

} // verus!
