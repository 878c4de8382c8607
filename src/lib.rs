//! Job-dispatch core of a scanning service: scope enforcement, rate limiting,
//! sandboxed tool invocation, normalization of scanner output and the job
//! state machine that ties them together.
pub mod net;
pub mod scope;
pub mod rate;
pub mod text;
pub mod models;
pub mod normalize;
pub mod sandbox;
pub mod adapters;
pub mod jobs;
pub mod auth;
pub mod submit;
pub mod config;
