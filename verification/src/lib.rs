//! A control plane that is spoken to in lines of JSON-RPC: it lists and calls
//! tools, which estimate what compute costs, hold the estimate against a
//! budget, scale pools of workers through an orchestrator backend, and hand
//! requests on to an upstream service.
//!
//! This crate decides and computes; it does not read, write or wait. Where
//! an answer needs the upstream service or a cluster, a function comes to a
//! value that says what is to be sent, and a second function makes the
//! answer from the reply. Every function is verified against its contract,
//! which speaks of the views of the values: texts as sequences of
//! characters, JSON documents as trees, amounts as natural numbers.
//!
//! - `mcp` holds the envelope of the protocol and the dispatcher.
//! - `tools` holds the tools and the way they read their arguments.
//! - `budget` holds the quantities, the rates, the estimate and the policy.
//! - `orchestrator` holds the interface of the backends, the local backend
//!   and what the Kubernetes backend asks of a cluster.
//! - `api` holds what is sent to the upstream service and what its answers
//!   mean.
//! - `config` holds the settings; `prompts` and `resources` hold fixed lists.
//! - `json`, `decimal`, `text` and `util` are what the others are written in.

pub mod api;
pub mod budget;
pub mod config;
pub mod decimal;
pub mod errors;
pub mod json;
pub mod mcp;
pub mod orchestrator;
pub mod prompts;
pub mod resources;
pub mod text;
pub mod tools;
pub mod util;
