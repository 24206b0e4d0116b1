//! The service configuration, from the values of its environment
//! variables.

use vstd::prelude::*;

verus! {

/// The service configuration.
#[derive(Clone)]
pub struct Config {
    pub server_addr: String,
    pub base_url: String,
    pub database_url: String,
    pub horizon_url: String,
    pub network_passphrase: String,
    pub distribution_seed: String,
    pub asset_code: String,
    /// Shared secret the platform mints SEP-24 interactive session URLs with.
    pub sep24_interactive_jwt_secret: String,
    /// Base URL of the platform's Platform API.
    pub platform_api_base_url: String,
    /// Shared secret the platform signs its callback requests with.
    pub callback_api_auth_secret: String,
    /// Shared secret this anchor signs its Platform API requests with.
    pub platform_api_auth_secret: String,
}

/// The values of the configuration's environment variables, each absent
/// when unset: `SERVER_ADDR`, `BASE_URL`, `DATABASE_URL`, `HORIZON_URL`,
/// `NETWORK_PASSPHRASE`, `DISTRIBUTION_SEED`, `ASSET_CODE`,
/// `SECRET_SEP24_INTERACTIVE_URL_JWT_SECRET`, `PLATFORM_API_BASE_URL`,
/// `SECRET_CALLBACK_API_AUTH_SECRET`, `SECRET_PLATFORM_API_AUTH_SECRET`.
pub struct EnvValues {
    pub server_addr: Option<String>,
    pub base_url: Option<String>,
    pub database_url: Option<String>,
    pub horizon_url: Option<String>,
    pub network_passphrase: Option<String>,
    pub distribution_seed: Option<String>,
    pub asset_code: Option<String>,
    pub sep24_interactive_jwt_secret: Option<String>,
    pub platform_api_base_url: Option<String>,
    pub callback_api_auth_secret: Option<String>,
    pub platform_api_auth_secret: Option<String>,
}

/// The value of an optional variable, its default when unset.
pub open spec fn or_default(v: Option<String>, default: Seq<char>) -> Seq<char> {
    match v {
        Some(s) => s@,
        None => default,
    }
}

pub open spec fn missing_message(key: Seq<char>) -> Seq<char> {
    "missing required environment variable: "@ + key
}

/// The first unset required variable, in the order they are read.
pub open spec fn first_missing(v: EnvValues) -> Option<Seq<char>> {
    if v.database_url is None {
        Some("DATABASE_URL"@)
    } else if v.distribution_seed is None {
        Some("DISTRIBUTION_SEED"@)
    } else if v.sep24_interactive_jwt_secret is None {
        Some("SECRET_SEP24_INTERACTIVE_URL_JWT_SECRET"@)
    } else if v.callback_api_auth_secret is None {
        Some("SECRET_CALLBACK_API_AUTH_SECRET"@)
    } else if v.platform_api_auth_secret is None {
        Some("SECRET_PLATFORM_API_AUTH_SECRET"@)
    } else {
        None
    }
}

fn value_or(v: &Option<String>, default: &str) -> (r: String)
    ensures
        r@ == or_default(*v, default@),
{
    match v {
        Some(s) => s.clone(),
        None => String::from_str(default),
    }
}

fn required(v: &Option<String>, key: &str) -> (r: Result<String, String>)
    ensures
        match v {
            Some(s) => r matches Ok(x) && x@ == s@,
            None => r matches Err(m) && m@ == missing_message(key@),
        },
{
    match v {
        Some(s) => Ok(s.clone()),
        None => {
            let mut m = String::from_str("missing required environment variable: ");
            m.append(key);
            Err(m)
        },
    }
}

impl Config {
    /// The configuration from the variables' values: the optional ones
    /// fall back to their defaults; the first unset required one is
    /// reported by name.
    pub fn from_values(v: &EnvValues) -> (r: Result<Config, String>)
        ensures
            match first_missing(*v) {
                Some(key) => r matches Err(m) && m@ == missing_message(key),
                None => r matches Ok(c) && {
                    &&& c.server_addr@ == or_default(v.server_addr, "0.0.0.0:8080"@)
                    &&& c.base_url@ == or_default(v.base_url, "http://localhost:8080"@)
                    &&& c.database_url@ == v.database_url.unwrap()@
                    &&& c.horizon_url@ == or_default(v.horizon_url, "https://horizon-testnet.stellar.org"@)
                    &&& c.network_passphrase@ == or_default(v.network_passphrase, "Test SDF Network ; September 2015"@)
                    &&& c.distribution_seed@ == v.distribution_seed.unwrap()@
                    &&& c.asset_code@ == or_default(v.asset_code, "TEST"@)
                    &&& c.sep24_interactive_jwt_secret@ == v.sep24_interactive_jwt_secret.unwrap()@
                    &&& c.platform_api_base_url@ == or_default(v.platform_api_base_url, "http://localhost:8085"@)
                    &&& c.callback_api_auth_secret@ == v.callback_api_auth_secret.unwrap()@
                    &&& c.platform_api_auth_secret@ == v.platform_api_auth_secret.unwrap()@
                },
            },
    {
        let server_addr = value_or(&v.server_addr, "0.0.0.0:8080");
        let base_url = value_or(&v.base_url, "http://localhost:8080");
        let database_url = required(&v.database_url, "DATABASE_URL")?;
        let horizon_url = value_or(&v.horizon_url, "https://horizon-testnet.stellar.org");
        let network_passphrase = value_or(&v.network_passphrase, "Test SDF Network ; September 2015");
        let distribution_seed = required(&v.distribution_seed, "DISTRIBUTION_SEED")?;
        let asset_code = value_or(&v.asset_code, "TEST");
        let sep24_interactive_jwt_secret = required(&v.sep24_interactive_jwt_secret, "SECRET_SEP24_INTERACTIVE_URL_JWT_SECRET")?;
        let platform_api_base_url = value_or(&v.platform_api_base_url, "http://localhost:8085");
        let callback_api_auth_secret = required(&v.callback_api_auth_secret, "SECRET_CALLBACK_API_AUTH_SECRET")?;
        let platform_api_auth_secret = required(&v.platform_api_auth_secret, "SECRET_PLATFORM_API_AUTH_SECRET")?;
        Ok(Config {
            server_addr,
            base_url,
            database_url,
            horizon_url,
            network_passphrase,
            distribution_seed,
            asset_code,
            sep24_interactive_jwt_secret,
            platform_api_base_url,
            callback_api_auth_secret,
            platform_api_auth_secret,
        })
    }
}

} // verus!
