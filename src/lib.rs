//! Turns alert notifications into post text: a store of templates with
//! per-service overrides, a resolver that picks one template, a renderer,
//! and the decision whether the text is published.

pub mod config;
pub mod template;
pub mod dispatch;
pub mod log;
