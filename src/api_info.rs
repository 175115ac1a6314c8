//! The connection configuration and its two constructors.

use vstd::prelude::*;

use crate::error::{Error, ErrorView};
use crate::url_parse::parse_of;

verus! {

/// Where the service lives and how to authenticate against it.
///
/// The base URL has always been parsed; the key ID and the secret are kept
/// exactly as they were given.
#[derive(Clone, Debug, PartialEq)]
#[non_exhaustive]
pub struct ApiInfo {
    /// The base URL of the trading API.
    pub api_base_url: url::Url,
    /// The key ID to authenticate with.
    pub key_id: String,
    /// The secret to authenticate with.
    pub secret: String,
}

/// An [`ApiInfo`] with its credentials as character sequences.
pub struct ApiInfoView {
    pub api_base_url: url::Url,
    pub key_id: Seq<char>,
    pub secret: Seq<char>,
}

impl View for ApiInfo {
    type V = ApiInfoView;

    open spec fn view(&self) -> ApiInfoView {
        ApiInfoView { api_base_url: self.api_base_url, key_id: self.key_id@, secret: self.secret@ }
    }
}

/// The result of a constructor, seen through the views of its two sides.
pub open spec fn outcome_view(r: Result<ApiInfo, Error>) -> Result<ApiInfoView, ErrorView> {
    match r {
        Ok(info) => Ok(info@),
        Err(e) => Err(e@),
    }
}

/// What building from explicit parts yields: the parsed base URL with both
/// credentials verbatim, or the parser's error.
pub open spec fn parts_outcome(api_base_url: Seq<char>, key_id: Seq<char>, secret: Seq<char>) -> Result<ApiInfoView, ErrorView> {
    match parse_of(api_base_url) {
        Ok(url) => Ok(ApiInfoView { api_base_url: url, key_id, secret }),
        Err(e) => Err(ErrorView::Url(e)),
    }
}

/// The environment entry that holds the base URL.
pub const ENV_API_BASE_URL: &'static str = "APCA_API_BASE_URL";
/// The environment entry that holds the key ID.
pub const ENV_KEY_ID: &'static str = "APCA_API_KEY_ID";
/// The environment entry that holds the secret.
pub const ENV_SECRET: &'static str = "APCA_API_SECRET_KEY";
/// The base URL used when the environment names none.
pub const API_BASE_URL: &'static str = "https://api.alpaca.markets";

/// What the environment holds under one name.
#[derive(Clone, Debug, PartialEq, Eq)]
pub enum EnvEntry {
    /// Nothing is stored under the name.
    Unset,
    /// Something is stored, but it is not valid text.
    NotUnicode,
    /// The stored text.
    Text(String),
}

/// The base URL text that an entry resolves to: its text, the default when
/// it is unset, or the encoding error naming it.
pub open spec fn base_url_text(entry: EnvEntry) -> Result<Seq<char>, ErrorView> {
    match entry {
        EnvEntry::Unset => Ok(API_BASE_URL@),
        EnvEntry::NotUnicode => Err(ErrorView::InvalidEncoding(ENV_API_BASE_URL@)),
        EnvEntry::Text(text) => Ok(text@),
    }
}

/// The text of a mandatory entry called `name`, or the error naming it.
pub open spec fn required_text(entry: EnvEntry, name: Seq<char>) -> Result<Seq<char>, ErrorView> {
    match entry {
        EnvEntry::Unset => Err(ErrorView::MissingVariable(name)),
        EnvEntry::NotUnicode => Err(ErrorView::InvalidEncoding(name)),
        EnvEntry::Text(text) => Ok(text@),
    }
}

/// What building from the three environment entries yields. The checks run
/// in order (base URL text, its parse, key ID, secret) and the first that
/// fails decides the error.
pub open spec fn env_outcome(api_base_url: EnvEntry, key_id: EnvEntry, secret: EnvEntry) -> Result<ApiInfoView, ErrorView> {
    match base_url_text(api_base_url) {
        Err(e) => Err(e),
        Ok(text) => match parse_of(text) {
            Err(e) => Err(ErrorView::Url(e)),
            Ok(url) => match required_text(key_id, ENV_KEY_ID@) {
                Err(e) => Err(e),
                Ok(k) => match required_text(secret, ENV_SECRET@) {
                    Err(e) => Err(e),
                    Ok(s) => Ok(ApiInfoView { api_base_url: url, key_id: k, secret: s }),
                },
            },
        },
    }
}

/// Takes the text out of a mandatory entry called `name`.
fn required(entry: EnvEntry, name: &str) -> (r: Result<String, Error>)
    ensures
        match required_text(entry, name@) {
            Ok(text) => r matches Ok(s) && s@ == text,
            Err(e) => r matches Err(err) && err@ == e,
        },
{
    match entry {
        EnvEntry::Unset => Err(Error::MissingVariable(name.to_string())),
        EnvEntry::NotUnicode => Err(Error::InvalidEncoding(name.to_string())),
        EnvEntry::Text(text) => Ok(text),
    }
}

impl ApiInfo {
    /// Builds an `ApiInfo` from a base URL text and the two credentials.
    ///
    /// Fails with [`Error::Url`] exactly when the text is not a valid
    /// absolute URL; the credentials are taken as they are.
    pub fn from_parts(api_base_url: &str, key_id: &str, secret: &str) -> (r: Result<Self, Error>)
        ensures
            outcome_view(r) == parts_outcome(api_base_url@, key_id@, secret@),
    {
        match url::Url::parse(api_base_url) {
            Ok(url) => Ok(ApiInfo { api_base_url: url, key_id: key_id.to_string(), secret: secret.to_string() }),
            Err(e) => Err(Error::Url(e)),
        }
    }

    /// Builds an `ApiInfo` from what the environment holds under
    /// [`ENV_API_BASE_URL`], [`ENV_KEY_ID`] and [`ENV_SECRET`].
    ///
    /// The base URL falls back to [`API_BASE_URL`] when unset; the key ID and
    /// the secret are mandatory. Each failing check names its entry, and the
    /// first one that fails is reported.
    pub fn from_env(api_base_url: EnvEntry, key_id: EnvEntry, secret: EnvEntry) -> (r: Result<Self, Error>)
        ensures
            outcome_view(r) == env_outcome(api_base_url, key_id, secret),
    {
        let parsed = match api_base_url {
            EnvEntry::Unset => url::Url::parse(API_BASE_URL),
            EnvEntry::NotUnicode => {
                return Err(Error::InvalidEncoding(ENV_API_BASE_URL.to_string()));
            },
            EnvEntry::Text(text) => url::Url::parse(text.as_str()),
        };
        let url = match parsed {
            Ok(url) => url,
            Err(e) => {
                return Err(Error::Url(e));
            },
        };
        let key_id = match required(key_id, ENV_KEY_ID) {
            Ok(k) => k,
            Err(e) => {
                return Err(e);
            },
        };
        let secret = match required(secret, ENV_SECRET) {
            Ok(s) => s,
            Err(e) => {
                return Err(e);
            },
        };
        Ok(ApiInfo { api_base_url: url, key_id, secret })
    }
}

/// True when the base URL entry resolves to a text that parses as an
/// absolute URL, so that the checks of the credentials are reached.
pub open spec fn base_url_resolves(api_base_url: EnvEntry) -> bool {
    base_url_text(api_base_url) matches Ok(text) && parse_of(text) is Ok
}

/// With all three entries holding text, building from the environment gives
/// what building from those same three texts as parts gives.
pub proof fn lemma_env_agrees_with_parts(api_base_url: String, key_id: String, secret: String)
    ensures
        env_outcome(EnvEntry::Text(api_base_url), EnvEntry::Text(key_id), EnvEntry::Text(secret))
            == parts_outcome(api_base_url@, key_id@, secret@),
{
}

/// With the base URL entry unset, building from the environment falls back to
/// the default base URL, and succeeds when the credentials hold text and the
/// default parses.
pub proof fn lemma_unset_base_url_uses_default(key_id: String, secret: String)
    ensures
        env_outcome(EnvEntry::Unset, EnvEntry::Text(key_id), EnvEntry::Text(secret))
            == parts_outcome(API_BASE_URL@, key_id@, secret@),
        parse_of(API_BASE_URL@) is Ok ==> env_outcome(
            EnvEntry::Unset,
            EnvEntry::Text(key_id),
            EnvEntry::Text(secret),
        ) is Ok,
{
}

/// With the key ID entry unset, building from the environment fails with
/// `MissingVariable` naming that entry, whatever the secret entry holds, once
/// the base URL check has passed.
pub proof fn lemma_missing_key_id(api_base_url: EnvEntry, secret: EnvEntry)
    requires
        base_url_resolves(api_base_url),
    ensures
        env_outcome(api_base_url, EnvEntry::Unset, secret) == Err::<ApiInfoView, ErrorView>(
            ErrorView::MissingVariable(ENV_KEY_ID@),
        ),
{
}

/// With the secret entry unset and the key ID holding text, building from the
/// environment fails with `MissingVariable` naming the secret entry, once the
/// base URL check has passed.
pub proof fn lemma_missing_secret(api_base_url: EnvEntry, key_id: String)
    requires
        base_url_resolves(api_base_url),
    ensures
        env_outcome(api_base_url, EnvEntry::Text(key_id), EnvEntry::Unset) == Err::<ApiInfoView, ErrorView>(
            ErrorView::MissingVariable(ENV_SECRET@),
        ),
{
}

} // verus!
