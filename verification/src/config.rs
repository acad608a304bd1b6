//! Configuration: the variables of the environment, and what they default to.

use vstd::prelude::*;

verus! {

/// The variables that are read. One that is not set, or is no text, is missing.
pub struct Variables {
    pub influxdb_url: Option<String>,
    pub influxdb_token: Option<String>,
    pub influxdb_org: Option<String>,
    pub influxdb_bucket: Option<String>,
    pub ttn_app_id: Option<String>,
    pub ttn_api_key: Option<String>,
    pub ttn_region: Option<String>,
    pub ttn_cursor_file: Option<String>,
}

/// What the service runs with.
pub struct Config {
    pub influx_url: String,
    pub influx_token: String,
    pub influx_org: String,
    pub bucket: String,
    pub ttn_app_id: String,
    pub ttn_api_key: String,
    pub ttn_region: String,
    pub cursor_path: String,
}

/// A variable that has no default is missing.
#[derive(Clone, Copy, Debug, PartialEq, Eq, Structural)]
pub enum ConfigError {
    InfluxToken,
    TtnApiKey,
}

impl ConfigError {
    /// What is said of the error.
    pub fn message(&self) -> (r: &'static str)
        ensures
            r@ == (match self {
                ConfigError::InfluxToken => "INFLUXDB_TOKEN not set"@,
                ConfigError::TtnApiKey => "TTN_API_KEY not set"@,
            }),
    {
        match self {
            ConfigError::InfluxToken => "INFLUXDB_TOKEN not set",
            ConfigError::TtnApiKey => "TTN_API_KEY not set",
        }
    }
}

/// A variable, or its default where it is missing.
pub open spec fn given_or(variable: Option<String>, default: Seq<char>) -> Seq<char> {
    match variable {
        Some(s) => s@,
        None => default,
    }
}

fn value_or(variable: Option<String>, default: &str) -> (r: String)
    ensures
        r@ == given_or(variable, default@),
{
    match variable {
        Some(s) => s,
        None => default.to_owned(),
    }
}

impl Config {
    /// The configuration that the variables give. The token is missed before the
    /// key is.
    pub fn from_variables(vars: Variables) -> (r: Result<Config, ConfigError>)
        ensures
            match r {
                Ok(c) => {
                    &&& vars.influxdb_token matches Some(token) && c.influx_token@ == token@
                    &&& vars.ttn_api_key matches Some(key) && c.ttn_api_key@ == key@
                    &&& c.influx_url@ == given_or(vars.influxdb_url, "http://localhost:8086"@)
                    &&& c.influx_org@ == given_or(vars.influxdb_org, "victron-monitoring"@)
                    &&& c.bucket@ == given_or(vars.influxdb_bucket, "victron-data"@)
                    &&& c.ttn_app_id@ == given_or(vars.ttn_app_id, "vanman"@)
                    &&& c.ttn_region@ == given_or(vars.ttn_region, "eu1"@)
                    &&& c.cursor_path@ == given_or(
                        vars.ttn_cursor_file,
                        "/var/lib/ttn-ingest/cursor"@,
                    )
                },
                Err(ConfigError::InfluxToken) => vars.influxdb_token is None,
                Err(ConfigError::TtnApiKey) => vars.influxdb_token is Some
                    && vars.ttn_api_key is None,
            },
    {
        let influx_url: String = value_or(vars.influxdb_url, "http://localhost:8086");
        let influx_token: String = match vars.influxdb_token {
            Some(token) => token,
            None => return Err(ConfigError::InfluxToken),
        };
        let influx_org: String = value_or(vars.influxdb_org, "victron-monitoring");
        let bucket: String = value_or(vars.influxdb_bucket, "victron-data");
        let ttn_app_id: String = value_or(vars.ttn_app_id, "vanman");
        let ttn_api_key: String = match vars.ttn_api_key {
            Some(key) => key,
            None => return Err(ConfigError::TtnApiKey),
        };
        let ttn_region: String = value_or(vars.ttn_region, "eu1");
        let cursor_path: String = value_or(vars.ttn_cursor_file, "/var/lib/ttn-ingest/cursor");
        Ok(
            Config {
                influx_url,
                influx_token,
                influx_org,
                bucket,
                ttn_app_id,
                ttn_api_key,
                ttn_region,
                cursor_path,
            },
        )
    }
}

/// A variable that is set is taken as it is, empty or not, and its default is
/// taken only where it is missing.
pub proof fn law_variables_come_before_defaults(variable: String, default: Seq<char>)
    ensures
        given_or(Some(variable), default) == variable@,
        given_or(None, default) == default,
{
}

} // verus!
