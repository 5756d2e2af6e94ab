//! The remote-procedure-call front-end's mapping logic.
//!
//! This front-end never turns a business failure into a transport-level
//! failure: every reply is a transport success whose payload carries its
//! own success flag and error message inline. Its batch reply keeps one
//! entry per requested symbol -- failures included, order and duplicates
//! preserved -- which deliberately differs from the drop-on-failure answer
//! of the request/response front-end.
use vstd::prelude::*;

use crate::aggregate::fetch_many;
use crate::aggregate::fetch_one;
use crate::aggregate::fetched_view;
use crate::aggregate::spec_fetch_one;
use crate::quote::QuoteResult;
use crate::quote::QuoteResultView;

verus! {

/// One single-symbol reply: the quote's fields with a true success flag, or
/// zeroed fields with a false flag and the failure's message. The numeric
/// fields are decimal text; the rim coerces them to floats on the wire.
#[derive(Debug)]
pub struct StockReply {
    pub symbol: String,
    pub name: String,
    pub price: String,
    pub change_percent: String,
    pub success: bool,
    pub error_message: String,
}

/// The mathematical value of a `StockReply`.
#[verifier::ext_equal]
pub struct StockReplyView {
    pub symbol: Seq<char>,
    pub name: Seq<char>,
    pub price: Seq<char>,
    pub change_percent: Seq<char>,
    pub success: bool,
    pub error_message: Seq<char>,
}

impl View for StockReply {
    type V = StockReplyView;

    open spec fn view(&self) -> StockReplyView {
        StockReplyView {
            symbol: self.symbol@,
            name: self.name@,
            price: self.price@,
            change_percent: self.change_percent@,
            success: self.success,
            error_message: self.error_message@,
        }
    }
}

/// The batch reply: one `StockReply` per requested symbol, plus a coarse
/// success flag that only records that the batch ran to completion.
#[derive(Debug)]
pub struct MultipleStocksReply {
    pub stocks: Vec<StockReply>,
    pub success: bool,
    pub error_message: String,
}

/// The reply a lookup outcome maps to: on success the quote's fields, a
/// true flag and an empty message; on failure the requested symbol, an
/// empty name, zero numeric text, a false flag and the failure's message.
pub open spec fn spec_stock_reply(qr: QuoteResultView) -> StockReplyView {
    match qr {
        QuoteResultView::Found(q) => StockReplyView {
            symbol: q.symbol,
            name: q.name,
            price: q.price,
            change_percent: q.change_percent,
            success: true,
            error_message: Seq::empty(),
        },
        QuoteResultView::Failed { symbol, message } => StockReplyView {
            symbol,
            name: Seq::empty(),
            price: "0"@,
            change_percent: "0"@,
            success: false,
            error_message: message,
        },
    }
}

/// Maps one lookup outcome to its reply, as [`spec_stock_reply`] states.
pub fn stock_reply_of(qr: &QuoteResult) -> (r: StockReply)
    ensures
        r@ == spec_stock_reply(qr@),
{
    match qr {
        QuoteResult::Found(q) => {
            let r = StockReply {
                symbol: q.symbol.clone(),
                name: q.name.clone(),
                price: q.price.clone(),
                change_percent: q.change_percent.clone(),
                success: true,
                error_message: String::new(),
            };
            proof {
                assert(r@ =~= spec_stock_reply(qr@));
            }
            r
        },
        QuoteResult::Failed { symbol, message } => {
            let r = StockReply {
                symbol: symbol.clone(),
                name: String::new(),
                price: "0".to_owned(),
                change_percent: "0".to_owned(),
                success: false,
                error_message: message.clone(),
            };
            proof {
                assert(r@ =~= spec_stock_reply(qr@));
            }
            r
        },
    }
}

/// The remote-procedure-call service. It holds no state at all: every
/// lookup works on values owned by its own call, so concurrent requests
/// cannot interfere.
pub struct MyMarketDataService;

impl MyMarketDataService {
    /// The single-symbol method's payload: always a transport success; the
    /// reply carries the lookup's own outcome inline.
    pub fn get_stock_price(&self, requested: &str, fetched: &Result<String, String>) -> (r:
        StockReply)
        ensures
            r@ == spec_stock_reply(spec_fetch_one(fetched_view(*fetched), requested@)),
    {
        let qr = fetch_one(fetched, requested);
        stock_reply_of(&qr)
    }

    /// The multi-symbol method's payload: exactly one reply per requested
    /// symbol, by input position, failures included; the outer flag is set
    /// unconditionally and says nothing about any single item.
    pub fn get_multiple_stocks(
        &self,
        symbols: &Vec<String>,
        fetched: &Vec<Result<String, String>>,
    ) -> (r: MultipleStocksReply)
        requires
            fetched@.len() == symbols@.len(),
        ensures
            r.stocks@.len() == symbols@.len(),
            forall|i: int|
                0 <= i < symbols@.len() ==> r.stocks@[i]@ == spec_stock_reply(
                    spec_fetch_one(fetched_view(fetched@[i]), symbols@[i]@),
                ),
            r.success == true,
            r.error_message@ == Seq::<char>::empty(),
    {
        let batch = fetch_many(symbols, fetched);
        proof {
            assert forall|k: int| 0 <= k < symbols@.len() implies batch.items@[k]@
                == spec_fetch_one(fetched_view(fetched@[k]), symbols@[k]@) by {
                assert(batch@.items[k] == batch.items@[k]@);
            }
        }
        let n = batch.items.len();
        let mut stocks: Vec<StockReply> = Vec::new();
        let mut i: usize = 0;
        while i < n
            invariant
                0 <= i <= n,
                n == batch.items@.len(),
                n == symbols@.len(),
                fetched@.len() == symbols@.len(),
                forall|k: int|
                    0 <= k < n ==> batch.items@[k]@ == spec_fetch_one(
                        fetched_view(fetched@[k]),
                        symbols@[k]@,
                    ),
                stocks@.len() == i,
                forall|k: int|
                    0 <= k < i ==> stocks@[k]@ == spec_stock_reply(
                        spec_fetch_one(fetched_view(fetched@[k]), symbols@[k]@),
                    ),
            decreases n - i,
        {
            let reply = stock_reply_of(&batch.items[i]);
            stocks.push(reply);
            i = i + 1;
        }
        MultipleStocksReply { stocks, success: true, error_message: String::new() }
    }
}

} // verus!
