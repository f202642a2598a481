//! Verified decision kernel of the santi runtime store: the codecs of its
//! persisted enumerations, the lifecycles of effects, receipts and thinking
//! spans, inbox admission and notice coalescing, compaction planning and
//! projection, forks, downstream registrations, job capabilities, object
//! buckets, schema migration planning and the window ingress rules.
pub mod text;
pub mod order;
pub mod receipt;
pub mod effect;
pub mod num;
pub mod json;
pub mod intake;
pub mod notice;
pub mod codec;
pub mod digest;
pub mod window;
pub mod records;
pub mod paths;
pub mod bucket;
pub mod compact;
pub mod assembly;
pub mod migration;
pub mod budget;
pub mod clip;
pub mod fork;
pub mod jobs;
pub mod turns;
pub mod downstream;
pub mod thinking;
