//! The aggregator: composes source and normalizer into a single-symbol
//! lookup, and fans a batch of lookups back in with per-item failure
//! isolation.
//!
//! The outbound network call itself stands outside this library; the rim
//! performs one call per requested symbol (concurrently, one task per
//! symbol) and hands the transport outcomes in here by input position. The
//! functions below state everything else: how each outcome becomes exactly
//! one `QuoteResult`, that a batch keeps its input order and its duplicates,
//! and that no item's outcome depends on any sibling.
use vstd::prelude::*;

use crate::normalize::global_quote_of;
use crate::normalize::normalize;
use crate::normalize::parse_failure_message;
use crate::normalize::spec_normalize;
use crate::normalize::spec_quote;
use crate::quote::BatchResult;
use crate::quote::QuoteResult;
use crate::quote::QuoteResultView;

verus! {

/// The value of a transport outcome: the raw payload text, or the transport
/// failure's description.
pub open spec fn fetched_view(f: Result<String, String>) -> Result<Seq<char>, Seq<char>> {
    match f {
        Ok(p) => Ok(p@),
        Err(e) => Err(e@),
    }
}

/// What one single-symbol lookup yields from its transport outcome: a
/// normalized quote when the transport delivered a well-shaped payload, and
/// otherwise a failure value echoing the requested symbol and carrying the
/// transport's or the parser's message. Total on every input.
pub open spec fn spec_fetch_one(f: Result<Seq<char>, Seq<char>>, requested: Seq<char>) -> QuoteResultView {
    match f {
        Ok(payload) => match spec_normalize(payload, requested) {
            Ok(q) => QuoteResultView::Found(q),
            Err(m) => (QuoteResultView::Failed { symbol: requested, message: m }),
        },
        Err(e) => (QuoteResultView::Failed { symbol: requested, message: e }),
    }
}

/// Single-symbol lookup over an already-performed transport call. Never
/// panics and never loses a failure: both failure stages are captured as a
/// `QuoteResult::Failed` value.
pub fn fetch_one(fetched: &Result<String, String>, requested: &str) -> (r: QuoteResult)
    ensures
        r@ == spec_fetch_one(fetched_view(*fetched), requested@),
{
    match fetched {
        Ok(payload) => match normalize(payload.as_str(), requested) {
            Ok(q) => QuoteResult::Found(q),
            Err(m) => QuoteResult::Failed { symbol: requested.to_owned(), message: m },
        },
        Err(e) => QuoteResult::Failed { symbol: requested.to_owned(), message: e.clone() },
    }
}

/// The per-position outcomes of a batch: position `i` of the result is the
/// single-symbol outcome of position `i` of the input, so order is kept and
/// duplicate symbols stay independent entries.
pub open spec fn spec_fetch_many(
    fetched: Seq<Result<Seq<char>, Seq<char>>>,
    symbols: Seq<Seq<char>>,
) -> Seq<QuoteResultView> {
    Seq::new(symbols.len(), |i: int| spec_fetch_one(fetched[i], symbols[i]))
}

/// Batch lookup over already-performed transport calls, one outcome per
/// requested symbol by input position. Waits for nothing here: the rim has
/// already collected every transport outcome, in input order. The result
/// holds exactly one item per input symbol -- duplicates included, failures
/// included -- and `overall_success` is set unconditionally: it records only
/// that the batch ran to completion, never per-item health.
pub fn fetch_many(symbols: &Vec<String>, fetched: &Vec<Result<String, String>>) -> (r: BatchResult)
    requires
        fetched@.len() == symbols@.len(),
    ensures
        r@.items.len() == symbols@.len(),
        forall|i: int|
            0 <= i < symbols@.len() ==> r@.items[i] == spec_fetch_one(
                fetched_view(fetched@[i]),
                symbols@[i]@,
            ),
        r@.items == spec_fetch_many(
            fetched@.map_values(|f: Result<String, String>| fetched_view(f)),
            symbols.deep_view(),
        ),
        r@.overall_success == true,
{
    let n = symbols.len();
    let mut items: Vec<QuoteResult> = Vec::new();
    let mut i: usize = 0;
    while i < n
        invariant
            0 <= i <= n,
            n == symbols@.len(),
            fetched@.len() == symbols@.len(),
            items@.len() == i,
            forall|k: int|
                0 <= k < i ==> items@[k]@ == spec_fetch_one(
                    fetched_view(fetched@[k]),
                    symbols@[k]@,
                ),
        decreases n - i,
    {
        let item = fetch_one(&fetched[i], symbols[i].as_str());
        items.push(item);
        i = i + 1;
    }
    let r = BatchResult { items, overall_success: true };
    proof {
        assert(r@.items =~= spec_fetch_many(
            fetched@.map_values(|f: Result<String, String>| fetched_view(f)),
            symbols.deep_view(),
        ));
    }
    r
}

/// Law: a lookup whose transport call delivered a well-shaped payload
/// always succeeds, and its quote carries the payload's numeric texts
/// untouched: the price exactly as the payload spelled it -- numeric or
/// not -- and the change percent with only its percent suffix stripped.
/// Its symbol is the payload's own symbol field, so it is the requested
/// symbol whenever the payload echoes the request, which a well-behaved
/// upstream does.
pub proof fn lemma_well_shaped_payload_found(
    payload: Seq<char>,
    requested: Seq<char>,
    f: (Seq<char>, Seq<char>, Seq<char>),
)
    requires
        global_quote_of(payload) == Some(f),
    ensures
        spec_fetch_one(Ok(payload), requested) == QuoteResultView::Found(
            spec_quote(f, requested),
        ),
        spec_fetch_one(Ok(payload), requested)->Found_0.price == f.1,
        spec_fetch_one(Ok(payload), requested)->Found_0.change_percent
            == crate::text::strip_percent_spec(f.2),
        f.0 == requested ==> spec_fetch_one(Ok(payload), requested)->Found_0.symbol == requested,
{
}

/// Law: a lookup whose transport call delivered a payload without the
/// required nested quote object never raises -- it yields a failure value
/// that echoes the requested symbol and carries the parse-failure message.
pub proof fn lemma_malformed_payload_failed(payload: Seq<char>, requested: Seq<char>)
    requires
        global_quote_of(payload) is None,
    ensures
        spec_fetch_one(Ok(payload), requested) == (QuoteResultView::Failed {
            symbol: requested,
            message: parse_failure_message(),
        }),
{
}

/// Law: single-symbol lookups never interfere. Within any two batches, the
/// outcome at a position depends only on that position's own symbol and its
/// own transport outcome: however every sibling entry is changed, the
/// outcome at that position stays the same.
pub proof fn lemma_lookup_isolation(
    fetched_a: Seq<Result<Seq<char>, Seq<char>>>,
    symbols_a: Seq<Seq<char>>,
    fetched_b: Seq<Result<Seq<char>, Seq<char>>>,
    symbols_b: Seq<Seq<char>>,
    i: int,
)
    requires
        0 <= i < symbols_a.len(),
        0 <= i < symbols_b.len(),
        fetched_a[i] == fetched_b[i],
        symbols_a[i] == symbols_b[i],
    ensures
        spec_fetch_many(fetched_a, symbols_a)[i] == spec_fetch_many(fetched_b, symbols_b)[i],
{
}

} // verus!
