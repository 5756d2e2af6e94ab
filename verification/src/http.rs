//! The request/response front-end's mapping logic.
//!
//! Its two lookups share the aggregator with the remote-procedure-call
//! front-end but answer differently: the single-symbol route collapses a
//! failure into a bare not-found (the structured message is lost -- lossy
//! on purpose, inherited behavior), and the multi-symbol route drops failed
//! items from its answer, so the answer may be shorter than the request.
//! That drop-on-failure contract deliberately differs from the
//! length-preserving one of the other front-end; each is stated here at its
//! own function.
//!
//! The cross-origin policy decision also stands here: a wildcard
//! configuration allows any origin, anything else is read as a
//! comma-separated allow-list.
use vstd::prelude::*;
use vstd::string::*;

use crate::quote::BatchResult;
use crate::quote::Quote;
use crate::quote::QuoteResult;
use crate::quote::QuoteResultView;
use crate::quote::QuoteView;
use crate::text::split_commas;
use crate::text::trim_spec;
use crate::text::trim_str;

verus! {

/// The symbols a raw comma-separated parameter denotes: its comma segments,
/// each trimmed, the blank ones left out.
pub open spec fn trimmed_nonempty(pieces: Seq<Seq<char>>) -> Seq<Seq<char>>
    decreases pieces.len(),
{
    if pieces.len() == 0 {
        Seq::empty()
    } else {
        let t = trim_spec(pieces[0]);
        (if t.len() == 0 {
            Seq::<Seq<char>>::empty()
        } else {
            seq![t]
        }) + trimmed_nonempty(pieces.drop_first())
    }
}

/// The symbol list a raw multi-symbol parameter denotes.
pub open spec fn spec_symbol_list(raw: Seq<char>) -> Seq<Seq<char>> {
    trimmed_nonempty(split_commas(raw))
}

/// Splits a raw comma-separated parameter into its symbols: one entry per
/// comma segment that is not blank after trimming, in input order.
pub fn parse_symbol_list(raw: &str) -> (r: Vec<String>)
    ensures
        r.deep_view() == spec_symbol_list(raw@),
{
    let pieces = crate::text::split_commas_str(raw);
    let n = pieces.len();
    let mut out: Vec<String> = Vec::new();
    let mut i: usize = 0;
    proof {
        assert(pieces.deep_view().skip(0) =~= pieces.deep_view());
        assert(out.deep_view() + trimmed_nonempty(pieces.deep_view()) =~~= trimmed_nonempty(
            pieces.deep_view(),
        ));
    }
    while i < n
        invariant
            0 <= i <= n,
            n == pieces@.len(),
            pieces.deep_view().len() == pieces@.len(),
            pieces.deep_view() == split_commas(raw@),
            out.deep_view() + trimmed_nonempty(pieces.deep_view().skip(i as int))
                =~~= spec_symbol_list(raw@),
        decreases n - i,
    {
        let t = trim_str(pieces[i].as_str());
        proof {
            let rest = pieces.deep_view().skip(i as int);
            assert(rest[0] == pieces.deep_view()[i as int]);
            assert(rest.drop_first() =~= pieces.deep_view().skip(i as int + 1));
            assert(trimmed_nonempty(rest) =~~= (if trim_spec(rest[0]).len() == 0 {
                Seq::<Seq<char>>::empty()
            } else {
                seq![trim_spec(rest[0])]
            }) + trimmed_nonempty(pieces.deep_view().skip(i as int + 1)));
        }
        if !t.as_str().is_empty() {
            let ghost old_dv = out.deep_view();
            out.push(t);
            proof {
                assert(out.deep_view() =~~= old_dv + seq![trim_spec(
                    pieces.deep_view()[i as int],
                )]);
            }
        }
        proof {
            assert(out.deep_view() + trimmed_nonempty(pieces.deep_view().skip(i as int + 1))
                =~~= spec_symbol_list(raw@));
        }
        i = i + 1;
    }
    proof {
        assert(pieces.deep_view().skip(n as int) =~= Seq::<Seq<char>>::empty());
        assert(out.deep_view() =~~= spec_symbol_list(raw@));
    }
    out
}

/// The multi-symbol route's admission decision: `None` -- a transport-level
/// not-found -- exactly when the parameter holds no symbol once blanks are
/// trimmed away, so a blank request can never reach the aggregator or earn
/// an empty success answer; otherwise the non-empty symbol list.
pub fn http_symbol_list(raw: &str) -> (r: Option<Vec<String>>)
    ensures
        r is None <==> spec_symbol_list(raw@).len() == 0,
        (match r {
            Some(v) => v.deep_view() == spec_symbol_list(raw@) && v@.len() > 0,
            None => true,
        }),
{
    let v = parse_symbol_list(raw);
    if v.len() == 0 {
        None
    } else {
        Some(v)
    }
}

/// The single-symbol route's answer: the quote on success, and `None` -- a
/// bare transport-level not-found, the failure's message lost -- on any
/// failure.
pub fn http_single_response(r: &QuoteResult) -> (out: Option<Quote>)
    ensures
        out is Some <==> r@ is Found,
        (match out {
            Some(q) => r@ == QuoteResultView::Found(q@),
            None => true,
        }),
{
    match r {
        QuoteResult::Found(q) => Some(
            Quote {
                symbol: q.symbol.clone(),
                name: q.name.clone(),
                price: q.price.clone(),
                change_percent: q.change_percent.clone(),
            },
        ),
        QuoteResult::Failed { .. } => None,
    }
}

/// The successful quotes of a batch, in batch order: what the multi-symbol
/// route serializes. Failed items are dropped, so the result may be shorter
/// than the batch.
pub open spec fn spec_successes(items: Seq<QuoteResultView>) -> Seq<QuoteView>
    decreases items.len(),
{
    if items.len() == 0 {
        Seq::empty()
    } else {
        (match items[0] {
            QuoteResultView::Found(q) => seq![q],
            QuoteResultView::Failed { .. } => Seq::<QuoteView>::empty(),
        }) + spec_successes(items.drop_first())
    }
}

/// Law: the drop-on-failure answer never exceeds its batch. Every item
/// contributes one quote when it succeeded and nothing when it failed, so
/// the answer can be shorter than the request -- unlike the other
/// front-end's batch reply, which keeps one entry per request.
pub proof fn lemma_successes_within_batch(items: Seq<QuoteResultView>)
    ensures
        spec_successes(items).len() <= items.len(),
    decreases items.len(),
{
    if items.len() > 0 {
        lemma_successes_within_batch(items.drop_first());
    }
}

/// The multi-symbol route's answer: only the successful quotes of the
/// batch, in batch order; failed items are silently dropped.
pub fn http_multi_response(batch: &BatchResult) -> (r: Vec<Quote>)
    ensures
        r@.map_values(|q: Quote| q@) == spec_successes(batch@.items),
{
    let n = batch.items.len();
    let mut out: Vec<Quote> = Vec::new();
    let mut i: usize = 0;
    proof {
        assert(batch@.items.skip(0) =~= batch@.items);
        assert(out@.map_values(|q: Quote| q@) + spec_successes(batch@.items) =~~= spec_successes(
            batch@.items,
        ));
    }
    while i < n
        invariant
            0 <= i <= n,
            n == batch.items@.len(),
            batch@.items.len() == batch.items@.len(),
            out@.map_values(|q: Quote| q@) + spec_successes(batch@.items.skip(i as int))
                =~~= spec_successes(batch@.items),
        decreases n - i,
    {
        proof {
            let rest = batch@.items.skip(i as int);
            assert(rest[0] == batch@.items[i as int]);
            assert(batch@.items[i as int] == batch.items@[i as int]@);
            assert(rest.drop_first() =~= batch@.items.skip(i as int + 1));
            assert(spec_successes(rest) =~~= (match rest[0] {
                QuoteResultView::Found(q) => seq![q],
                QuoteResultView::Failed { .. } => Seq::<QuoteView>::empty(),
            }) + spec_successes(batch@.items.skip(i as int + 1)));
        }
        if let Some(q) = http_single_response(&batch.items[i]) {
            let ghost old_dv = out@.map_values(|q: Quote| q@);
            out.push(q);
            proof {
                assert(out@.map_values(|q: Quote| q@) =~~= old_dv + seq![
                    batch.items@[i as int]@->Found_0,
                ]);
            }
        }
        proof {
            assert(out@.map_values(|q: Quote| q@) + spec_successes(
                batch@.items.skip(i as int + 1),
            ) =~~= spec_successes(batch@.items));
        }
        i = i + 1;
    }
    proof {
        assert(batch@.items.skip(n as int) =~= Seq::<QuoteResultView>::empty());
        assert(out@.map_values(|q: Quote| q@) =~~= spec_successes(batch@.items));
    }
    out
}

/// The cross-origin policy a configuration value denotes.
#[derive(Debug)]
pub enum CorsPolicy {
    /// The wildcard configuration: any origin is allowed.
    AllowAny,
    /// Every other configuration: only the listed origins are allowed.
    Origins(Vec<String>),
}

/// Reads the allowed-origins configuration: the wildcard value allows any
/// origin; anything else is a comma-separated allow-list, trimmed and with
/// blanks dropped.
pub fn cors_policy(allowed: &str) -> (r: CorsPolicy)
    ensures
        allowed@ == "*"@ ==> r is AllowAny,
        allowed@ != "*"@ ==> (match r {
            CorsPolicy::Origins(v) => v.deep_view() == spec_symbol_list(allowed@),
            CorsPolicy::AllowAny => false,
        }),
{
    proof {
        reveal_strlit("*");
    }
    let n = allowed.unicode_len();
    if n == 1 && allowed.get_char(0) == '*' {
        proof {
            assert(allowed@ =~= "*"@);
        }
        CorsPolicy::AllowAny
    } else {
        proof {
            assert(allowed@ != "*"@);
        }
        CorsPolicy::Origins(parse_symbol_list(allowed))
    }
}

} // verus!
