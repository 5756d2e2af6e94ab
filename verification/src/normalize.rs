//! The normalizer: turns a raw upstream payload into a canonical [`Quote`].
//!
//! The upstream provider answers with a JSON object holding one nested
//! object under the member "Global Quote", which in turn carries the symbol,
//! the price and the change percent, all three as strings. Decoding that
//! envelope is delegated to serde_json behind one trusted wrapper; what the
//! wrapper hands back is then normalized by verified code: the percent
//! suffix is stripped, and the display name is synthesized from the
//! requested symbol.
//!
//! The numeric texts are deliberately not validated here: a price such as
//! "N/A" still yields a quote, and the coercion of that text to a float --
//! zero when the text is not numeric -- happens in the unverified rim. That
//! looseness is inherited behavior, kept on purpose and documented rather
//! than silently fixed.
use vstd::prelude::*;
use vstd::string::*;

use crate::quote::Quote;
use crate::quote::QuoteView;
use crate::text::strip_percent_spec;
use crate::text::strip_percent_str;

verus! {

/// What the upstream payload's nested quote object holds: its symbol, price
/// and change-percent strings, or nothing when the payload does not decode
/// to that shape. The result depends on the payload text alone; no short
/// statement of JSON's grammar is attempted here.
pub uninterp spec fn global_quote_of(payload: Seq<char>) -> Option<
    (Seq<char>, Seq<char>, Seq<char>),
>;

/// Relies on serde_json::from_str::<serde_json::Value> (decodes the payload
/// as JSON, or errs when it is not JSON), serde_json::Value::get (looks a
/// member up in a JSON object, `None` when absent or when the value is no
/// object) and serde_json::Value::as_str (`Some` exactly on a JSON string):
/// extracts the "Global Quote" member's "01. symbol", "05. price" and
/// "10. change percent" string fields. All three are total functions of the
/// payload text, so the whole extraction is one too.
#[verifier::external_body]
fn extract_global_quote(payload: &str) -> (r: Option<(String, String, String)>)
    ensures
        (match r {
            Some(t) => global_quote_of(payload@) == Some((t.0@, t.1@, t.2@)),
            None => global_quote_of(payload@) is None,
        }),
{
    let v: serde_json::Value = serde_json::from_str(payload).ok()?;
    let q = v.get("Global Quote")?;
    let symbol = q.get("01. symbol")?.as_str()?.to_owned();
    let price = q.get("05. price")?.as_str()?.to_owned();
    let change = q.get("10. change percent")?.as_str()?.to_owned();
    Some((symbol, price, change))
}

/// The error text a payload of the wrong shape yields.
pub open spec fn parse_failure_message() -> Seq<char> {
    "JSON parse error: payload does not hold the expected quote shape"@
}

/// The quote a well-shaped payload with fields `f` normalizes to, when the
/// lookup asked for `requested`: the payload's own symbol, a display name
/// synthesized from the requested symbol, the price text as sent, and the
/// change-percent text with its percent suffix stripped.
pub open spec fn spec_quote(f: (Seq<char>, Seq<char>, Seq<char>), requested: Seq<char>) -> QuoteView {
    QuoteView {
        symbol: f.0,
        name: requested + " Corp"@,
        price: f.1,
        change_percent: strip_percent_spec(f.2),
    }
}

/// What normalizing a payload yields: the quote when the payload holds the
/// expected nested object, the parse-failure message otherwise.
pub open spec fn spec_normalize(payload: Seq<char>, requested: Seq<char>) -> Result<
    QuoteView,
    Seq<char>,
> {
    match global_quote_of(payload) {
        Some(f) => Ok(spec_quote(f, requested)),
        None => Err(parse_failure_message()),
    }
}

/// The value of a normalizer outcome.
pub open spec fn normalize_view(r: Result<Quote, String>) -> Result<QuoteView, Seq<char>> {
    match r {
        Ok(q) => Ok(q@),
        Err(m) => Err(m@),
    }
}

/// Parses one raw upstream payload into a canonical quote. Total: a payload
/// of the wrong shape is an `Err` value carrying the parse-failure message,
/// never a panic.
pub fn normalize(payload: &str, requested: &str) -> (r: Result<Quote, String>)
    ensures
        normalize_view(r) == spec_normalize(payload@, requested@),
{
    match extract_global_quote(payload) {
        Some((symbol, price, change)) => {
            let name = requested.to_owned().concat(" Corp");
            let change_percent = strip_percent_str(change.as_str());
            let q = Quote { symbol, name, price, change_percent };
            proof {
                assert(q@ =~= spec_quote(
                    (q.symbol@, q.price@, change@),
                    requested@,
                ));
            }
            Ok(q)
        },
        None => Err("JSON parse error: payload does not hold the expected quote shape".to_owned()),
    }
}

} // verus!
