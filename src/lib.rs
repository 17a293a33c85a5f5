//! Feed aggregation core: source detection and feed endpoints, feed discovery,
//! per-feed deduplication of articles, and notification delivery that shrinks
//! its body text until the channel accepts it.

pub mod text;
pub mod domain;
pub mod errors;
pub mod delivery;
pub mod dedup;
pub mod fetch;
pub mod urls;
pub mod patterns;
pub mod sources;
pub mod feed_doc;
pub mod html;
pub mod validation;
pub mod outline;
pub mod commands;
