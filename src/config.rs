//! Process configuration: the provider credential and the listen port.
use vstd::prelude::*;

verus! {

/// The placeholder credential that stands for "no key configured" and
/// switches the adapter into demo mode.
pub open spec fn demo_key() -> Seq<char> {
    "your-api-key-here"@
}

/// Port used when none is configured.
pub open spec fn default_port() -> Seq<char> {
    "8080"@
}

/// Resolved configuration; immutable once built.
pub struct Config {
    pub api_key: String,
    pub port: String,
}

impl Config {
    /// Whether this configuration carries no real credential.
    pub open spec fn is_demo_spec(&self) -> bool {
        self.api_key@ == demo_key()
    }

    /// Resolves the configuration from the two (optional) environment values,
    /// substituting the placeholder key and the default port where absent.
    pub fn resolve(api_key: Option<String>, port: Option<String>) -> (c: Config)
        ensures
            c.api_key@ == match api_key {
                Some(k) => k@,
                None => demo_key(),
            },
            c.port@ == match port {
                Some(p) => p@,
                None => default_port(),
            },
    {
        let api_key = match api_key {
            Some(k) => k,
            None => String::from_str("your-api-key-here"),
        };
        let port = match port {
            Some(p) => p,
            None => String::from_str("8080"),
        };
        Config { api_key, port }
    }

    /// A configuration without a credential, on the default port.
    pub fn demo() -> (c: Config)
        ensures
            c.is_demo_spec(),
            c.port@ == default_port(),
    {
        Config::resolve(None, None)
    }

    /// Whether replies are synthesized locally instead of asked of the provider.
    pub fn is_demo(&self) -> (r: bool)
        ensures
            r == self.is_demo_spec(),
    {
        let placeholder = String::from_str("your-api-key-here");
        self.api_key == placeholder
    }

    /// The socket address to listen on: every interface, on the configured port.
    pub fn bind_address(&self) -> (r: String)
        ensures
            r@ == "0.0.0.0:"@ + self.port@,
    {
        String::from_str("0.0.0.0:").concat(self.port.as_str())
    }
}

} // verus!
