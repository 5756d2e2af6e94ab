//! A verified market-quote lookup core.
//!
//! The library fetches nothing itself: the unverified rim around it performs
//! the outbound calls and hands their results in as plain values. Everything
//! with behavior worth stating is here -- normalizing an upstream payload
//! into a canonical quote, composing a batch of lookups with per-item
//! failure isolation and order preservation, and the mapping both protocol
//! front-ends (a plain request/response one and a remote-procedure-call one)
//! apply to those results.
pub mod aggregate;
pub mod http;
pub mod normalize;
pub mod quote;
pub mod rpc;
pub mod source;
pub mod text;
