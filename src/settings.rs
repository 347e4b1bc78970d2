//! Process configuration, built from the values of its variables.

use vstd::prelude::*;

verus! {

/// The process configuration.
#[derive(Clone, Debug)]
pub struct Settings {
    pub database_url: String,
    pub app_host: String,
    pub use_headless_browser_only: bool,
    pub cache_url: Option<String>,
}

/// The address served when none is configured.
pub open spec fn default_app_host() -> Seq<char> {
    "127.0.0.1:8080"@
}

/// A flag is on only when its value is exactly `true`.
pub open spec fn flag_on(value: Option<Seq<char>>) -> bool {
    value == Some("true"@)
}

impl Settings {
    /// The configuration for a database URL and the optional values of the
    /// host, the rendered-only flag and the cache URL.
    pub fn from_values(
        database_url: String,
        app_host: Option<String>,
        headless_only: Option<String>,
        cache_url: Option<String>,
    ) -> (r: Settings)
        ensures
            r.database_url == database_url,
            r.app_host@ == match app_host {
                Some(h) => h@,
                None => default_app_host(),
            },
            r.use_headless_browser_only == flag_on(crate::model::text_of(headless_only)),
            r.cache_url == cache_url,
    {
        let app_host = match app_host {
            Some(h) => h,
            None => "127.0.0.1:8080".to_owned(),
        };
        let use_headless_browser_only = match headless_only {
            Some(v) => v == "true".to_owned(),
            None => false,
        };
        Settings { database_url, app_host, use_headless_browser_only, cache_url }
    }
}

} // verus!
