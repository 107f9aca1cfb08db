//! Response handling for a music-streaming web API: a JSON document model,
//! the projections that each exposed operation makes of a response, and the
//! typed response shapes with their decoders.

pub mod json;
pub mod glue;
pub mod types;
