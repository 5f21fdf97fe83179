//! The request shapes of the HTTP rim. The rim itself — routing, JSON and
//! status mapping — lives outside this crate and hands these plain values
//! in.

pub mod request_object;
