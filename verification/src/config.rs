//! The application's configuration and the choice of the configuration file.
use vstd::prelude::*;

use crate::errors::ProviderError;

verus! {

/// Where the resources come from.
#[derive(Debug, Clone, Copy, PartialEq, Eq, Structural)]
pub enum DataSourceKind {
    Null,
    File,
    Database,
}

/// The name of a kind of data source, as it is written in the banner.
pub open spec fn kind_name(kind: DataSourceKind) -> Seq<char> {
    match kind {
        DataSourceKind::Null => "Null"@,
        DataSourceKind::File => "File"@,
        DataSourceKind::Database => "Database"@,
    }
}

impl DataSourceKind {
    /// The name of the kind (see `kind_name`).
    pub fn name(&self) -> (r: &'static str)
        ensures
            r@ == kind_name(*self),
    {
        match self {
            DataSourceKind::Null => "Null",
            DataSourceKind::File => "File",
            DataSourceKind::Database => "Database",
        }
    }
}

/// Configuration for the application itself.
#[derive(Debug)]
pub struct ApplicationConfig {
    /// The name of the application.
    pub app_name: String,
    /// IP address where the web server is listening, in its textual form.
    pub address: String,
    /// Port where the web server is listening.
    pub port: u16,
    /// Type of data source.
    pub source_kind: DataSourceKind,
    /// Location of the data source (e.g., a file name or a connection string).
    pub source_location: String,
    /// The serialized URLs of the token issuers that are accepted, if any.
    pub jwt_issuers: Option<Vec<String>>,
    /// How long, in seconds, the keys of the issuers are kept.
    pub jwt_key_cache_ttl: u64,
    /// Whether the banner is not printed at start.
    pub silent: bool,
}

impl Default for ApplicationConfig {
    /// Listen on every interface at port 8080, read resources from
    /// `assets/sources-sample.yaml`, accept no issuer.
    fn default() -> (r: Self)
        ensures
            r.app_name@ == Seq::<char>::empty(),
            r.address@ == "0.0.0.0"@,
            r.port == 8080,
            r.source_kind == DataSourceKind::File,
            r.source_location@ == "assets/sources-sample.yaml"@,
            r.jwt_issuers is None,
            r.jwt_key_cache_ttl == 300,
            !r.silent,
    {
        ApplicationConfig {
            app_name: String::new(),
            address: String::from_str("0.0.0.0"),
            port: 8080,
            source_kind: DataSourceKind::File,
            source_location: String::from_str("assets/sources-sample.yaml"),
            jwt_issuers: None,
            jwt_key_cache_ttl: 300,
            silent: false,
        }
    }
}

/// What was found when looking for the configuration file.
pub enum ConfigFileProbe {
    /// The variable that names the file is set: its value, and whether that
    /// file exists.
    Variable { value: String, exists: bool },
    /// The variable is not set: the first file of the standard location that
    /// matches the default pattern, if any.
    Search { first_match: Option<String> },
}

/// The configuration file to read: the file that the variable `var` names,
/// which must exist; without the variable, the first file found at the
/// standard location, or none (the empty path).
pub fn config_file_choice(var: &str, probe: ConfigFileProbe) -> (r: Result<String, ProviderError>)
    ensures
        match probe {
            ConfigFileProbe::Variable { value, exists } =>
                if exists {
                    r matches Ok(f) && f@ == value@
                } else {
                    r matches Err(ProviderError::ApplicationConfigError(m))
                        && m@ == "file from variable "@ + var@ + " not found"@
                },
            ConfigFileProbe::Search { first_match } => match first_match {
                Some(f) => r matches Ok(g) && g@ == f@,
                None => r matches Ok(g) && g@ == Seq::<char>::empty(),
            },
        },
{
    match probe {
        ConfigFileProbe::Variable { value, exists } => {
            if exists {
                Ok(value)
            } else {
                let mut m = String::from_str("file from variable ");
                m.append(var);
                m.append(" not found");
                Err(ProviderError::ApplicationConfigError(m))
            }
        },
        ConfigFileProbe::Search { first_match } => match first_match {
            Some(f) => Ok(f),
            None => Ok(String::new()),
        },
    }
}

} // verus!
