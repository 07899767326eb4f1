//! Connection-URL validation failures.

use vstd::prelude::*;
use vstd::string::StringExecFns;

verus! {

/// Indicates the specific type/cause of URL error.
#[derive(Clone, Debug, PartialEq, Eq)]
pub enum UrlError {
    /// TLS is used despite not being compiled with the TLS feature enabled.
    TlsFeatureNotEnabled,
    /// The URL does not include a host name.
    NoHostName,
    /// Failed to connect with this URL.
    UnableToConnect(String),
    /// Unsupported URL scheme used (only `ws://` or `wss://` may be used).
    UnsupportedUrlScheme,
    /// The URL host name, though included, is empty.
    EmptyHostName,
    /// The URL does not include a path/query.
    NoPathOrQuery,
}

impl UrlError {
    /// The diagnostic text for this URL error.
    pub open spec fn spec_message(self) -> Seq<char> {
        match self {
            UrlError::TlsFeatureNotEnabled => "TLS support not compiled in"@,
            UrlError::NoHostName => "No host name in the URL"@,
            UrlError::UnableToConnect(reason) => "Unable to connect to "@ + reason@,
            UrlError::UnsupportedUrlScheme => "URL scheme not supported"@,
            UrlError::EmptyHostName => "URL contains empty host name"@,
            UrlError::NoPathOrQuery => "No path/query in URL"@,
        }
    }

    /// Renders the diagnostic text for this URL error.
    pub fn message(&self) -> (s: String)
        ensures
            s@ == self.spec_message(),
    {
        match self {
            UrlError::TlsFeatureNotEnabled => String::from_str("TLS support not compiled in"),
            UrlError::NoHostName => String::from_str("No host name in the URL"),
            UrlError::UnableToConnect(reason) => {
                let mut s = String::from_str("Unable to connect to ");
                s.append(reason.as_str());
                s
            },
            UrlError::UnsupportedUrlScheme => String::from_str("URL scheme not supported"),
            UrlError::EmptyHostName => String::from_str("URL contains empty host name"),
            UrlError::NoPathOrQuery => String::from_str("No path/query in URL"),
        }
    }
}

} // verus!
