//! The settings of a run: where the service is, who asks, and which file to read.
//!
//! Reading the environment is not done here. The values that were read come in as
//! arguments, `None` for one that is not set, and are checked in a fixed order.

use vstd::prelude::*;
use vstd::string::StringExecFns;
use vstd::string::StrSliceExecFns;
use crate::error::{ConfigErrorKind, ConfigErrorKindView, CustomError, CustomErrorView};
use crate::text::{same_text, trim, trim_trailing_slashes, trimmed, without_trailing};

verus! {

/// The settings of a run.
#[derive(Debug, PartialEq, Eq)]
pub struct Config {
    pub base_url: String,
    pub tenant: String,
    pub token_url: String,
    pub api_url: String,
    pub client_id: String,
    pub client_secret: String,
    pub source_file_name: String,
}

/// The settings as plain values.
pub struct ConfigView {
    pub base_url: Seq<char>,
    pub tenant: Seq<char>,
    pub token_url: Seq<char>,
    pub api_url: Seq<char>,
    pub client_id: Seq<char>,
    pub client_secret: Seq<char>,
    pub source_file_name: Seq<char>,
}

impl View for Config {
    type V = ConfigView;

    open spec fn view(&self) -> ConfigView {
        ConfigView {
            base_url: self.base_url@,
            tenant: self.tenant@,
            token_url: self.token_url@,
            api_url: self.api_url@,
            client_id: self.client_id@,
            client_secret: self.client_secret@,
            source_file_name: self.source_file_name@,
        }
    }
}

impl Clone for Config {
    fn clone(&self) -> (copy: Config)
        ensures
            copy@ == self@,
    {
        Config {
            base_url: self.base_url.clone(),
            tenant: self.tenant.clone(),
            token_url: self.token_url.clone(),
            api_url: self.api_url.clone(),
            client_id: self.client_id.clone(),
            client_secret: self.client_secret.clone(),
            source_file_name: self.source_file_name.clone(),
        }
    }
}

/// The scheme of the URL that `url::Url::parse` makes of a text, or `None` where it
/// refuses the text.
pub uninterp spec fn url_scheme(url: Seq<char>) -> Option<Seq<char>>;

/// An optional text as plain values.
pub open spec fn optional_text(text: Option<String>) -> Option<Seq<char>> {
    match text {
        Some(t) => Some(t@),
        None => None,
    }
}

/// An optional text as plain values.
pub open spec fn optional_str(text: Option<&str>) -> Option<Seq<char>> {
    match text {
        Some(t) => Some(t@),
        None => None,
    }
}

/// Calls `url::Url::parse` and, where that gives a URL, `scheme` on it. Believed:
/// the outcome is a function of the text alone, named [`url_scheme`].
#[verifier::external_body]
fn parse_scheme(url: &str) -> (scheme: Option<String>)
    ensures
        optional_text(scheme) == url_scheme(url@),
{
    match url::Url::parse(url) {
        Ok(parsed) => Some(parsed.scheme().to_string()),
        Err(_) => None,
    }
}

/// The verdict on a setting that was read: it must be set and, unless it may be
/// empty, must not be blank. What is kept is the trimmed value.
pub open spec fn env_verdict(key: Seq<char>, value: Option<Seq<char>>, allow_empty: bool) -> Result<
    Seq<char>,
    CustomErrorView,
> {
    match value {
        None => Err(CustomErrorView::ConfigError(ConfigErrorKindView::MissingEnvVar(key))),
        Some(text) => if !allow_empty && trimmed(text).len() == 0 {
            Err(CustomErrorView::ConfigError(ConfigErrorKindView::EmptyEnvVar(key)))
        } else {
            Ok(trimmed(text))
        },
    }
}

/// The verdict on a URL whose scheme was found, or not found, by parsing it: only a
/// URL with the scheme `https` passes, and it is kept without the slashes at its end.
pub open spec fn url_verdict(url: Seq<char>, scheme: Option<Seq<char>>) -> Result<
    Seq<char>,
    CustomErrorView,
> {
    if scheme == Some("https"@) {
        Ok(without_trailing(url, '/'))
    } else {
        Err(CustomErrorView::ConfigError(ConfigErrorKindView::InvalidUrlFormat(url)))
    }
}

/// The address of the token endpoint: below the base URL, with the tenant as a
/// query where there is one.
pub open spec fn token_url_of(base_url: Seq<char>, tenant: Seq<char>) -> Seq<char> {
    if trimmed(tenant).len() == 0 {
        base_url + "/auth/token"@
    } else {
        base_url + "/auth/token?tenant="@ + tenant
    }
}

/// The address below which the fields are created.
pub open spec fn api_url_of(base_url: Seq<char>) -> Seq<char> {
    base_url + "/api"@
}

/// The settings that the values give, or the first error in the order in which they
/// are checked: the environment file, the base URL and its form, the tenant, the
/// client id, the client secret, the name of the source file.
pub open spec fn config_verdict(
    env_file_loaded: bool,
    base_url: Option<Seq<char>>,
    tenant: Option<Seq<char>>,
    client_id: Option<Seq<char>>,
    client_secret: Option<Seq<char>>,
    source_file_name: Option<Seq<char>>,
) -> Result<ConfigView, CustomErrorView> {
    if !env_file_loaded {
        Err(CustomErrorView::ConfigError(ConfigErrorKindView::MissingEnvFile))
    } else {
        match env_verdict("BASE_URL"@, base_url, false) {
            Err(e) => Err(e),
            Ok(raw_url) => match url_verdict(raw_url, url_scheme(raw_url)) {
                Err(e) => Err(e),
                Ok(url) => match env_verdict("TENANT"@, tenant, true) {
                    Err(e) => Err(e),
                    Ok(tenant_name) => match env_verdict("CLIENT_ID"@, client_id, false) {
                        Err(e) => Err(e),
                        Ok(id) => match env_verdict("CLIENT_SECRET"@, client_secret, false) {
                            Err(e) => Err(e),
                            Ok(secret) => match env_verdict(
                                "SOURCE_FILE_NAME"@,
                                source_file_name,
                                false,
                            ) {
                                Err(e) => Err(e),
                                Ok(file) => Ok(
                                    ConfigView {
                                        base_url: url,
                                        tenant: tenant_name,
                                        token_url: token_url_of(url, tenant_name),
                                        api_url: api_url_of(url),
                                        client_id: id,
                                        client_secret: secret,
                                        source_file_name: file,
                                    },
                                ),
                            },
                        },
                    },
                },
            },
        }
    }
}

/// A result that holds a text, as plain values.
pub open spec fn setting_view(result: Result<String, CustomError>) -> Result<
    Seq<char>,
    CustomErrorView,
> {
    match result {
        Ok(text) => Ok(text@),
        Err(e) => Err(e@),
    }
}

/// A result that holds settings, as plain values.
pub open spec fn config_result_view(result: Result<Config, CustomError>) -> Result<
    ConfigView,
    CustomErrorView,
> {
    match result {
        Ok(config) => Ok(config@),
        Err(e) => Err(e@),
    }
}

impl Config {
    /// Checks a setting that was read from the environment under `key`; `None` stands
    /// for one that is not set.
    pub fn get_env_var(key: &str, value: Option<&str>, allow_empty: bool) -> (result: Result<
        String,
        CustomError,
    >)
        ensures
            setting_view(result) == env_verdict(key@, optional_str(value), allow_empty),
    {
        match value {
            None => Err(
                CustomError::ConfigError(ConfigErrorKind::MissingEnvVar(String::from_str(key))),
            ),
            Some(text) => {
                let kept = trim(text);
                if !allow_empty && kept.unicode_len() == 0 {
                    Err(
                        CustomError::ConfigError(
                            ConfigErrorKind::EmptyEnvVar(String::from_str(key)),
                        ),
                    )
                } else {
                    Ok(String::from_str(kept))
                }
            },
        }
    }

    /// Decides on a URL by the scheme that parsing found in it: `None` where parsing
    /// failed.
    pub fn check_url(url: &str, scheme: Option<&str>) -> (result: Result<String, CustomError>)
        ensures
            setting_view(result) == url_verdict(url@, optional_str(scheme)),
    {
        let secure = match scheme {
            Some(text) => same_text(text, "https"),
            None => false,
        };
        if secure {
            Ok(String::from_str(trim_trailing_slashes(url)))
        } else {
            Err(CustomError::ConfigError(ConfigErrorKind::InvalidUrlFormat(String::from_str(url))))
        }
    }

    /// Accepts a URL that parses and has the scheme `https`, and returns it without
    /// the slashes at its end.
    pub fn validate_url(url: &str) -> (result: Result<String, CustomError>)
        ensures
            setting_view(result) == url_verdict(url@, url_scheme(url@)),
    {
        match parse_scheme(url) {
            Some(scheme) => Self::check_url(url, Some(scheme.as_str())),
            None => Self::check_url(url, None),
        }
    }

    /// The address of the token endpoint for a base URL and a tenant.
    pub fn build_token_url(base_url: &str, tenant: &str) -> (url: String)
        ensures
            url@ == token_url_of(base_url@, tenant@),
    {
        let mut url = String::from_str(base_url);
        if trim(tenant).unicode_len() == 0 {
            url.append("/auth/token");
        } else {
            url.append("/auth/token?tenant=");
            url.append(tenant);
        }
        url
    }

    /// Makes the settings from the values that were read from the environment, or
    /// returns the first error in the order in which they are checked.
    pub fn new(
        env_file_loaded: bool,
        base_url: Option<&str>,
        tenant: Option<&str>,
        client_id: Option<&str>,
        client_secret: Option<&str>,
        source_file_name: Option<&str>,
    ) -> (result: Result<Config, CustomError>)
        ensures
            config_result_view(result) == config_verdict(
                env_file_loaded,
                optional_str(base_url),
                optional_str(tenant),
                optional_str(client_id),
                optional_str(client_secret),
                optional_str(source_file_name),
            ),
    {
        if !env_file_loaded {
            return Err(CustomError::ConfigError(ConfigErrorKind::MissingEnvFile));
        }
        let raw_base_url = match Self::get_env_var("BASE_URL", base_url, false) {
            Ok(value) => value,
            Err(e) => { return Err(e); },
        };
        let base_url = match Self::validate_url(raw_base_url.as_str()) {
            Ok(value) => value,
            Err(e) => { return Err(e); },
        };
        let tenant = match Self::get_env_var("TENANT", tenant, true) {
            Ok(value) => value,
            Err(e) => { return Err(e); },
        };
        let client_id = match Self::get_env_var("CLIENT_ID", client_id, false) {
            Ok(value) => value,
            Err(e) => { return Err(e); },
        };
        let client_secret = match Self::get_env_var("CLIENT_SECRET", client_secret, false) {
            Ok(value) => value,
            Err(e) => { return Err(e); },
        };
        let source_file_name = match Self::get_env_var("SOURCE_FILE_NAME", source_file_name, false) {
            Ok(value) => value,
            Err(e) => { return Err(e); },
        };
        let mut api_url = base_url.clone();
        api_url.append("/api");
        let token_url = Self::build_token_url(base_url.as_str(), tenant.as_str());
        Ok(
            Config {
                base_url,
                tenant,
                api_url,
                token_url,
                client_id,
                client_secret,
                source_file_name,
            },
        )
    }
}

} // verus!
