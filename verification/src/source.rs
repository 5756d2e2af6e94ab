//! The quote source's computable half: the upstream query URL and the
//! configuration defaults.
//!
//! The network call itself -- one GET per symbol, no retry, no explicit
//! timeout, the body read whatever the status code -- belongs to the rim;
//! what is stated here is exactly which URL that call must use and which
//! credential and origin configuration apply when the process environment
//! holds none.
use vstd::prelude::*;
use vstd::string::*;

verus! {

/// Builds the upstream query URL for one symbol: the fixed endpoint and
/// function, then the symbol, then the credential.
pub fn quote_url(symbol: &str, api_key: &str) -> (r: String)
    ensures
        r@ == "https://www.alphavantage.co/query?function=GLOBAL_QUOTE&symbol="@ + symbol@
            + "&apikey="@ + api_key@,
{
    let mut url = String::from_str(
        "https://www.alphavantage.co/query?function=GLOBAL_QUOTE&symbol=",
    );
    url.append(symbol);
    url.append("&apikey=");
    url.append(api_key);
    proof {
        assert(url@ =~= "https://www.alphavantage.co/query?function=GLOBAL_QUOTE&symbol="@
            + symbol@ + "&apikey="@ + api_key@);
    }
    url
}

/// The credential the upstream call uses: the configured one, or the
/// permissive demo default when the configuration holds none. The default
/// is a deliberate permissive fallback, not a security control.
pub fn effective_api_key(configured: Option<String>) -> (r: String)
    ensures
        (match configured {
            Some(k) => r@ == k@,
            None => r@ == "demo"@,
        }),
{
    match configured {
        Some(k) => k,
        None => "demo".to_owned(),
    }
}

/// The allowed-origins configuration: the configured value, or the local
/// development origin when the configuration holds none.
pub fn effective_allowed_origins(configured: Option<String>) -> (r: String)
    ensures
        (match configured {
            Some(s) => r@ == s@,
            None => r@ == "http://localhost:3000"@,
        }),
{
    match configured {
        Some(s) => s,
        None => "http://localhost:3000".to_owned(),
    }
}

} // verus!
