//! The canonical data model: a normalized quote, the per-symbol outcome of a
//! lookup, and the fan-in result of a batch of lookups.
//!
//! A quote's numeric fields are carried as the decimal text the upstream
//! provider sent (the percent suffix already stripped); the coercion of that
//! text to a machine float -- which silently falls back to zero when the text
//! is not numeric -- is left to the unverified rim around this library and is
//! documented there.
use vstd::prelude::*;

verus! {

/// A normalized market quote. Immutable once constructed; produced only from
/// a payload that held the expected nested quote object.
#[derive(Debug)]
pub struct Quote {
    /// The symbol as the upstream payload spelled it.
    pub symbol: String,
    /// Display name, synthesized from the requested symbol, never taken from
    /// the upstream payload.
    pub name: String,
    /// Price as decimal text, exactly as the upstream payload carried it.
    pub price: String,
    /// Change percent as decimal text, trailing percent signs stripped.
    pub change_percent: String,
}

/// The mathematical value of a `Quote`: its four fields as character
/// sequences.
#[verifier::ext_equal]
pub struct QuoteView {
    pub symbol: Seq<char>,
    pub name: Seq<char>,
    pub price: Seq<char>,
    pub change_percent: Seq<char>,
}

impl View for Quote {
    type V = QuoteView;

    open spec fn view(&self) -> QuoteView {
        QuoteView {
            symbol: self.symbol@,
            name: self.name@,
            price: self.price@,
            change_percent: self.change_percent@,
        }
    }
}

/// The outcome of one single-symbol lookup. Failure is a value, never a
/// raised condition: one symbol's failure must not contaminate its siblings
/// in a batch.
#[derive(Debug)]
pub enum QuoteResult {
    /// The lookup succeeded and produced a normalized quote.
    Found(Quote),
    /// The lookup failed; `symbol` echoes the symbol as it was requested and
    /// `message` describes the transport or parse failure.
    Failed { symbol: String, message: String },
}

/// The mathematical value of a `QuoteResult`.
#[verifier::ext_equal]
pub enum QuoteResultView {
    Found(QuoteView),
    Failed { symbol: Seq<char>, message: Seq<char> },
}

impl View for QuoteResult {
    type V = QuoteResultView;

    open spec fn view(&self) -> QuoteResultView {
        match self {
            QuoteResult::Found(q) => QuoteResultView::Found(q@),
            QuoteResult::Failed { symbol, message } => (QuoteResultView::Failed {
                symbol: symbol@,
                message: message@,
            }),
        }
    }
}

/// The fan-in result of a batch of lookups: one `QuoteResult` per requested
/// symbol, in request order. `overall_success` only records that the batch
/// ran to completion; it says nothing about the health of any single item.
#[derive(Debug)]
pub struct BatchResult {
    pub items: Vec<QuoteResult>,
    pub overall_success: bool,
}

/// The mathematical value of a `BatchResult`.
#[verifier::ext_equal]
pub struct BatchView {
    pub items: Seq<QuoteResultView>,
    pub overall_success: bool,
}

impl View for BatchResult {
    type V = BatchView;

    open spec fn view(&self) -> BatchView {
        BatchView {
            items: self.items@.map_values(|r: QuoteResult| r@),
            overall_success: self.overall_success,
        }
    }
}

} // verus!
