//! A template-function side-effect bridge: a shared rendering environment is
//! duplicated per request, host functions are bound to the working copy, and
//! the values those functions accept during evaluation are collected in a
//! per-render observation accumulator.

pub mod accumulator;
pub mod context;
pub mod engine;
pub mod environment;
pub mod errors;
pub mod fonts;
