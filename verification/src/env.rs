//! Settings that are read from the environment: where the document store
//! is, keys for data providers, and limits.

use crate::text::same_text;
use vstd::prelude::*;
use vstd::string::*;

verus! {

/// The lower-case form of a text, as `str::to_lowercase` gives it.
pub uninterp spec fn lowercase_of(text: Seq<char>) -> Seq<char>;

/// `str::to_lowercase`: the text with every character in its lower-case
/// form, named by [`lowercase_of`].
#[verifier::external_body]
fn lowercase(text: &str) -> (r: String)
    ensures
        r@ == lowercase_of(text@),
{
    text.to_lowercase()
}

/// A copy of an optional text.
fn copy_of(text: &Option<String>) -> (r: Option<String>)
    ensures
        text.is_some() == r.is_some(),
        text matches Some(t) ==> r.unwrap()@ == t@,
{
    match text {
        Some(t) => Some(t.clone()),
        None => None,
    }
}

/// The providers of market data that a key can be kept for.
#[derive(Debug, Clone, Copy, PartialEq, Eq, Structural)]
pub enum Provider {
    AlphaVantage,
    Polygon,
    Finnhub,
    IexCloud,
    TwelveData,
    YahooFinance,
    Quandl,
    Binance,
    Coinbase,
}

/// The provider that a lower-case name stands for.
pub open spec fn provider_named(name: Seq<char>) -> Option<Provider> {
    if name == "alpha_vantage"@ || name == "alphavantage"@ {
        Some(Provider::AlphaVantage)
    } else if name == "polygon"@ {
        Some(Provider::Polygon)
    } else if name == "finnhub"@ {
        Some(Provider::Finnhub)
    } else if name == "iex"@ || name == "iex_cloud"@ {
        Some(Provider::IexCloud)
    } else if name == "twelve_data"@ || name == "twelvedata"@ {
        Some(Provider::TwelveData)
    } else if name == "yahoo"@ || name == "yahoo_finance"@ {
        Some(Provider::YahooFinance)
    } else if name == "quandl"@ {
        Some(Provider::Quandl)
    } else if name == "binance"@ {
        Some(Provider::Binance)
    } else if name == "coinbase"@ {
        Some(Provider::Coinbase)
    } else {
        None
    }
}

/// The provider that a lower-case name stands for.
pub fn provider_for(name: &str) -> (r: Option<Provider>)
    ensures
        r == provider_named(name@),
{
    if same_text(name, "alpha_vantage") || same_text(name, "alphavantage") {
        Some(Provider::AlphaVantage)
    } else if same_text(name, "polygon") {
        Some(Provider::Polygon)
    } else if same_text(name, "finnhub") {
        Some(Provider::Finnhub)
    } else if same_text(name, "iex") || same_text(name, "iex_cloud") {
        Some(Provider::IexCloud)
    } else if same_text(name, "twelve_data") || same_text(name, "twelvedata") {
        Some(Provider::TwelveData)
    } else if same_text(name, "yahoo") || same_text(name, "yahoo_finance") {
        Some(Provider::YahooFinance)
    } else if same_text(name, "quandl") {
        Some(Provider::Quandl)
    } else if same_text(name, "binance") {
        Some(Provider::Binance)
    } else if same_text(name, "coinbase") {
        Some(Provider::Coinbase)
    } else {
        None
    }
}

/// The settings, each as it was found or not.
#[derive(Debug, Clone)]
pub struct EnvConfig {
    pub couchdb_url: Option<String>,
    pub couchdb_username: Option<String>,
    pub couchdb_password: Option<String>,
    pub couchdb_database: Option<String>,
    pub alpha_vantage_api_key: Option<String>,
    pub polygon_api_key: Option<String>,
    pub finnhub_api_key: Option<String>,
    pub iex_cloud_api_key: Option<String>,
    pub twelve_data_api_key: Option<String>,
    pub yahoo_finance_api_key: Option<String>,
    pub quandl_api_key: Option<String>,
    pub binance_api_key: Option<String>,
    pub binance_secret_key: Option<String>,
    pub coinbase_api_key: Option<String>,
    pub coinbase_secret_key: Option<String>,
    pub data_directory: Option<String>,
    pub log_level: Option<String>,
    pub max_retries: Option<u32>,
    pub request_timeout: Option<u64>,
    pub default_export_format: Option<String>,
    pub export_batch_size: Option<usize>,
}

impl Default for EnvConfig {
    /// Settings with nothing found.
    fn default() -> (r: EnvConfig)
        ensures
            r.max_retries.is_none(),
            r.request_timeout.is_none(),
            r.export_batch_size.is_none(),
            r.couchdb_url.is_none(),
            r.couchdb_database.is_none(),
            r.couchdb_username.is_none(),
            r.couchdb_password.is_none(),
            forall|p: Provider| r.key_of(p).is_none(),
    {
        EnvConfig {
            couchdb_url: None,
            couchdb_username: None,
            couchdb_password: None,
            couchdb_database: None,
            alpha_vantage_api_key: None,
            polygon_api_key: None,
            finnhub_api_key: None,
            iex_cloud_api_key: None,
            twelve_data_api_key: None,
            yahoo_finance_api_key: None,
            quandl_api_key: None,
            binance_api_key: None,
            binance_secret_key: None,
            coinbase_api_key: None,
            coinbase_secret_key: None,
            data_directory: None,
            log_level: None,
            max_retries: None,
            request_timeout: None,
            default_export_format: None,
            export_batch_size: None,
        }
    }
}

impl EnvConfig {
    /// The key kept for a provider.
    pub open spec fn key_of(self, provider: Provider) -> Option<String> {
        match provider {
            Provider::AlphaVantage => self.alpha_vantage_api_key,
            Provider::Polygon => self.polygon_api_key,
            Provider::Finnhub => self.finnhub_api_key,
            Provider::IexCloud => self.iex_cloud_api_key,
            Provider::TwelveData => self.twelve_data_api_key,
            Provider::YahooFinance => self.yahoo_finance_api_key,
            Provider::Quandl => self.quandl_api_key,
            Provider::Binance => self.binance_api_key,
            Provider::Coinbase => self.coinbase_api_key,
        }
    }

    /// The key kept under a lower-case name; none for a name that stands
    /// for no provider.
    pub open spec fn key_named(self, name: Seq<char>) -> Option<String> {
        match provider_named(name) {
            Some(p) => self.key_of(p),
            None => None,
        }
    }

    fn key_ref(&self, provider: Provider) -> (r: &Option<String>)
        ensures
            *r == self.key_of(provider),
    {
        match provider {
            Provider::AlphaVantage => &self.alpha_vantage_api_key,
            Provider::Polygon => &self.polygon_api_key,
            Provider::Finnhub => &self.finnhub_api_key,
            Provider::IexCloud => &self.iex_cloud_api_key,
            Provider::TwelveData => &self.twelve_data_api_key,
            Provider::YahooFinance => &self.yahoo_finance_api_key,
            Provider::Quandl => &self.quandl_api_key,
            Provider::Binance => &self.binance_api_key,
            Provider::Coinbase => &self.coinbase_api_key,
        }
    }

    /// The address of the document store; `http://localhost:5984` where
    /// none was found.
    pub fn couchdb_url(&self) -> (r: String)
        ensures
            r@ == (match self.couchdb_url {
                Some(url) => url@,
                None => "http://localhost:5984"@,
            }),
    {
        match &self.couchdb_url {
            Some(url) => url.clone(),
            None => String::from_str("http://localhost:5984"),
        }
    }

    /// The name of the database; `market_data` where none was found.
    pub fn couchdb_database(&self) -> (r: String)
        ensures
            r@ == (match self.couchdb_database {
                Some(name) => name@,
                None => "market_data"@,
            }),
    {
        match &self.couchdb_database {
            Some(name) => name.clone(),
            None => String::from_str("market_data"),
        }
    }

    /// Whether both a user name and a password were found.
    pub fn has_couchdb_auth(&self) -> (r: bool)
        ensures
            r == (self.couchdb_username.is_some() && self.couchdb_password.is_some()),
    {
        self.couchdb_username.is_some() && self.couchdb_password.is_some()
    }

    /// The user name and the password, where both were found.
    pub fn couchdb_credentials(&self) -> (r: Option<(String, String)>)
        ensures
            r.is_some() == (self.couchdb_username.is_some() && self.couchdb_password.is_some()),
            r matches Some(pair) ==> pair.0@ == self.couchdb_username.unwrap()@ && pair.1@
                == self.couchdb_password.unwrap()@,
    {
        match (&self.couchdb_username, &self.couchdb_password) {
            (Some(user), Some(pass)) => Some((user.clone(), pass.clone())),
            _ => None,
        }
    }

    /// The number of records in one batch of an export; 1000 where none was
    /// found.
    pub fn export_batch_size(&self) -> (r: usize)
        ensures
            r == (match self.export_batch_size {
                Some(n) => n,
                None => 1000,
            }),
    {
        match self.export_batch_size {
            Some(n) => n,
            None => 1000,
        }
    }

    /// The seconds after which a request is given up; 30 where none were
    /// found.
    pub fn request_timeout_secs(&self) -> (r: u64)
        ensures
            r == (match self.request_timeout {
                Some(n) => n,
                None => 30,
            }),
    {
        match self.request_timeout {
            Some(n) => n,
            None => 30,
        }
    }

    /// The number of times a request is tried again; 3 where none was found.
    pub fn max_retries(&self) -> (r: u32)
        ensures
            r == (match self.max_retries {
                Some(n) => n,
                None => 3,
            }),
    {
        match self.max_retries {
            Some(n) => n,
            None => 3,
        }
    }

    /// The settings that are required and missing: no setting is required,
    /// so none is ever missing.
    pub fn validate(&self) -> (r: Result<(), Vec<String>>)
        ensures
            r.is_ok(),
    {
        let missing: Vec<String> = Vec::new();
        if missing.len() == 0 {
            Ok(())
        } else {
            Err(missing)
        }
    }

    /// Whether a key is kept under the lower-case name.
    pub fn has_key_named(&self, name: &str) -> (r: bool)
        ensures
            r == self.key_named(name@).is_some(),
    {
        match provider_for(name) {
            Some(p) => self.key_ref(p).is_some(),
            None => false,
        }
    }

    /// The key kept under the lower-case name.
    pub fn key_for_name(&self, name: &str) -> (r: Option<String>)
        ensures
            r.is_some() == self.key_named(name@).is_some(),
            r matches Some(key) ==> key@ == self.key_named(name@).unwrap()@,
    {
        match provider_for(name) {
            Some(p) => copy_of(self.key_ref(p)),
            None => None,
        }
    }

    /// Whether a key is kept for the provider of the given name, in any
    /// case of letters.
    pub fn has_api_key(&self, provider: &str) -> (r: bool)
        ensures
            r == self.key_named(lowercase_of(provider@)).is_some(),
    {
        let name = lowercase(provider);
        self.has_key_named(name.as_str())
    }

    /// The key kept for the provider of the given name, in any case of
    /// letters.
    pub fn get_api_key(&self, provider: &str) -> (r: Option<String>)
        ensures
            r.is_some() == self.key_named(lowercase_of(provider@)).is_some(),
            r matches Some(key) ==> key@ == self.key_named(lowercase_of(provider@)).unwrap()@,
    {
        let name = lowercase(provider);
        self.key_for_name(name.as_str())
    }
}

} // verus!
