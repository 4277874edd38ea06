//! Certified serving of a static site from a replicated node.
//!
//! A [`site::Site`] owns the asset router together with the digest it last
//! published. A certification pass stages the files of the site, certifies
//! them into a fresh router and swaps that router in only when the whole pass
//! succeeded, so that requests are always answered against a complete pass.

pub mod corpus;
pub mod headers;
pub mod router;
pub mod rules;
pub mod site;
pub mod status;
pub mod text;
