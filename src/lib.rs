//! Client-side adaptation layer between an application and a cloud hub's
//! native device/module SDK.
//!
//! The library holds the decisions of the layer, each with a contract:
//! - `message`: outgoing and incoming messages, their builder, and the
//!   translation to and from the native message representation;
//! - `confirmation`: the tracker of in-flight delivery confirmations, with
//!   timeouts, opportunistic reaping and a bounded shutdown;
//! - `dispatch`: the translation of native callback invocations into typed
//!   events and of consumer replies into native answers;
//! - `config`: option values, retry policies and client options;
//! - `client`: the façade core that ties the tracker and the codec together;
//! - `json`: the calls into the JSON codec and the text decoding it relies on.
use vstd::prelude::*;

pub mod client;
pub mod config;
pub mod confirmation;
pub mod dispatch;
pub mod json;
pub mod message;
